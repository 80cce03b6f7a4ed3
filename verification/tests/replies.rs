use yards::reply::Reply;

#[test]
fn listing_replies() {
    let ok: Reply<Vec<i32>> = Reply::listing(Ok(vec![1, 2]));
    assert_eq!(ok, Reply::Json(vec![1, 2]));
    assert_eq!(ok.status(), 200);
    let err: Reply<Vec<i32>> = Reply::listing(Err("connection refused".to_string()));
    assert_eq!(err, Reply::ServerError("connection refused".to_string()));
    assert_eq!(err.status(), 500);
}

#[test]
fn creation_replies() {
    let ok: Reply<i32> = Reply::creation(Ok(5));
    assert_eq!(ok, Reply::Created(5));
    assert_eq!(ok.status(), 201);
    let err: Reply<i32> = Reply::creation(Err("duplicate key".to_string()));
    assert_eq!(err.status(), 500);
}

#[test]
fn update_replies() {
    let ok: Reply<i32> = Reply::update(Ok(9));
    assert_eq!(ok, Reply::Json(9));
    assert_eq!(ok.status(), 200);
    let err: Reply<i32> = Reply::update(Err("no such row".to_string()));
    assert_eq!(err, Reply::ServerError("no such row".to_string()));
    assert_eq!(err.status(), 500);
}

#[test]
fn completion_replies() {
    let done: Reply<i32> = Reply::completion(Ok(()));
    assert_eq!(done, Reply::Done);
    assert_eq!(done.status(), 200);
    let err: Reply<i32> = Reply::completion(Err("locked".to_string()));
    assert_eq!(err, Reply::ServerError("locked".to_string()));
}

#[test]
fn update_gate() {
    assert_eq!(Reply::<i32>::unless_pending(true), None);
    let early = Reply::<i32>::unless_pending(false).unwrap();
    assert_eq!(early, Reply::NotModified);
    assert_eq!(early.status(), 304);
}
