use std::collections::HashMap;

use image_service::download::download_response;
use image_service::error::{other, IoError};
use image_service::identifier::validate;
use image_service::response::{Body, Response, StatusCode};
use image_service::router::Method;
use image_service::service::{microservice_handler, upload_handler, Outcome};
use image_service::upload::{upload_response, UploadAction, UploadEvent, UploadSession};

/// A store in memory that counts how often it is asked for anything.
struct Store {
    objects: HashMap<String, Vec<u8>>,
    calls: usize,
    writes_before_failure: Option<usize>,
    refuses_creation: bool,
}

impl Store {
    fn new() -> Store {
        Store { objects: HashMap::new(), calls: 0, writes_before_failure: None, refuses_creation: false }
    }

    fn create(&mut self, id: &str) -> Result<(), IoError> {
        self.calls += 1;
        if self.refuses_creation {
            return Err(other(String::from("permission denied")));
        }
        self.objects.insert(id.to_string(), Vec::new());
        Ok(())
    }

    fn write(&mut self, id: &str, bytes: &[u8]) -> Result<(), IoError> {
        self.calls += 1;
        if let Some(left) = self.writes_before_failure {
            if left == 0 {
                return Err(other(String::from("disk full")));
            }
            self.writes_before_failure = Some(left - 1);
        }
        self.objects.get_mut(id).unwrap().extend_from_slice(bytes);
        Ok(())
    }

    fn open(&mut self, id: &str) -> Result<(), IoError> {
        self.calls += 1;
        if self.objects.contains_key(id) {
            Ok(())
        } else {
            Err(IoError::NotFound)
        }
    }
}

fn next_event(chunks: &mut std::vec::IntoIter<Vec<u8>>) -> UploadEvent {
    match chunks.next() {
        Some(chunk) => UploadEvent::Chunk(chunk),
        None => UploadEvent::End,
    }
}

/// Performs on `store` what `session` asks for, one action at a time.
fn run_upload(
    store: &mut Store,
    mut session: UploadSession,
    first: UploadAction,
    body: Vec<Vec<u8>>,
) -> Response {
    let mut chunks = body.into_iter();
    let mut action = first;
    loop {
        let event = match action {
            UploadAction::Create(id) => match store.create(id.as_str()) {
                Ok(()) => UploadEvent::Opened,
                Err(error) => UploadEvent::Failed(error),
            },
            UploadAction::Receive => next_event(&mut chunks),
            UploadAction::Write(bytes) => match store.write(session.id().as_str(), &bytes) {
                Ok(()) => next_event(&mut chunks),
                Err(error) => UploadEvent::Failed(error),
            },
            UploadAction::Commit(id) => return upload_response(Ok(id)),
            UploadAction::Abort(error) => return upload_response(Err(error)),
            UploadAction::Nothing => panic!("a finished upload was asked to go on"),
        };
        action = session.step(event);
    }
}

/// Serves one request on `store` and gives the status and the bytes of the
/// answer.
fn serve(store: &mut Store, method: Method, path: &str, body: Vec<Vec<u8>>) -> (u16, Vec<u8>) {
    let response = match microservice_handler(method, path) {
        Outcome::Respond(response) => response,
        Outcome::Upload(session, first) => run_upload(store, session, first, body),
        Outcome::Download(id) => {
            let opened = store.open(id.as_str());
            download_response(id, opened)
        },
    };
    let bytes = match response.body {
        Body::Empty => Vec::new(),
        Body::Text(text) => text.into_bytes(),
        Body::Object(id) => store.objects[id.as_str()].clone(),
    };
    (response.status.as_u16(), bytes)
}

fn upload(store: &mut Store, body: Vec<Vec<u8>>) -> String {
    let (status, bytes) = serve(store, Method::Post, "/upload", body);
    assert_eq!(status, 200);
    String::from_utf8(bytes).unwrap()
}

fn download(store: &mut Store, id: &str) -> (u16, Vec<u8>) {
    serve(store, Method::Get, &format!("/download/{}", id), Vec::new())
}

#[test]
fn index_is_a_fixed_text() {
    let mut store = Store::new();
    assert_eq!(serve(&mut store, Method::Get, "/", Vec::new()), (200, b"Image Service".to_vec()));
    assert_eq!(store.calls, 0);
}

#[test]
fn unknown_requests_are_not_found() {
    let mut store = Store::new();
    for (method, path) in [
        (Method::Get, "/nowhere"),
        (Method::Get, "/upload"),
        (Method::Post, "/"),
        (Method::Post, "/download/abcdefghij0123456789"),
        (Method::Other, "/"),
        (Method::Other, "/upload"),
    ] {
        assert_eq!(serve(&mut store, method, path, vec![vec![1]]), (404, Vec::new()));
    }
    assert_eq!(store.calls, 0);
}

#[test]
fn hello_world_comes_back() {
    let mut store = Store::new();
    let id = upload(&mut store, vec![b"hello world".to_vec()]);
    assert_eq!(id.chars().count(), 20);
    assert!(id.chars().all(|c| c.is_ascii_alphanumeric()));
    assert_eq!(download(&mut store, &id), (200, b"hello world".to_vec()));
}

#[test]
fn short_candidate_is_not_found_and_the_store_untouched() {
    let mut store = Store::new();
    assert_eq!(serve(&mut store, Method::Get, "/download/short", Vec::new()), (404, Vec::new()));
    assert_eq!(store.calls, 0);
}

#[test]
fn candidate_with_a_slash_is_not_found_before_the_store() {
    let mut store = Store::new();
    store.objects.insert(String::from("abcdefghi"), b"secret".to_vec());
    let path = "/download/abcdefghi/0123456789";
    assert_eq!(path.len() - "/download/".len(), 20);
    assert_eq!(serve(&mut store, Method::Get, path, Vec::new()), (404, Vec::new()));
    assert_eq!(store.calls, 0);
}

#[test]
fn empty_body_is_stored_and_comes_back_empty() {
    let mut store = Store::new();
    let id = upload(&mut store, Vec::new());
    assert_eq!(id.chars().count(), 20);
    assert_eq!(download(&mut store, &id), (200, Vec::new()));
}

#[test]
fn malformed_downloads_never_reach_the_store() {
    let mut store = Store::new();
    store.objects.insert(String::from("passwd"), b"secret".to_vec());
    for candidate in [
        "",
        "passwd",
        "../passwd",
        "..",
        ".",
        "../../../etc/passwd0",
        "abcdefghij_123456789",
        "abcdefghij0123456789a",
        "abcdefghij012345678",
        "abcdefghij0123456789/",
        "abcdefghij0123456789/..",
    ] {
        assert_eq!(download(&mut store, candidate), (404, Vec::new()));
    }
    assert_eq!(store.calls, 0);
}

#[test]
fn well_formed_but_never_uploaded_is_not_found() {
    let mut store = Store::new();
    upload(&mut store, vec![b"something".to_vec()]);
    let before = store.calls;
    assert_eq!(download(&mut store, "abcdefghij0123456789"), (404, Vec::new()));
    assert_eq!(store.calls, before + 1);
}

#[test]
fn round_trip_of_many_bodies() {
    let mut store = Store::new();
    let large: Vec<u8> = (0..100_000u32).map(|i| (i % 251) as u8).collect();
    let bodies: Vec<Vec<Vec<u8>>> = vec![
        vec![],
        vec![vec![]],
        vec![vec![], vec![], vec![]],
        vec![vec![0]],
        vec![vec![1, 2, 3], vec![4], vec![], vec![5, 6]],
        vec![vec![255; 3], vec![0; 2]],
        vec![large.clone()],
        large.chunks(8192).map(|chunk| chunk.to_vec()).collect(),
        large.chunks(1).take(1000).map(|chunk| chunk.to_vec()).collect(),
    ];
    for body in bodies {
        let expected: Vec<u8> = body.iter().flatten().copied().collect();
        let id = upload(&mut store, body);
        assert_eq!(download(&mut store, &id), (200, expected));
    }
}

#[test]
fn chunking_does_not_change_what_is_stored() {
    let mut store = Store::new();
    let whole = upload(&mut store, vec![b"hello world".to_vec()]);
    let cut = upload(&mut store, vec![b"hel".to_vec(), b"lo ".to_vec(), b"world".to_vec()]);
    assert_eq!(download(&mut store, &whole).1, download(&mut store, &cut).1);
}

#[test]
fn interleaved_uploads_keep_their_bytes_apart() {
    let mut store = Store::new();
    let payloads: Vec<Vec<Vec<u8>>> = (0..8u8)
        .map(|n| (0..5u8).map(|part| vec![n; usize::from(part) + 1]).collect())
        .collect();
    let mut sessions = Vec::new();
    for _ in &payloads {
        match microservice_handler(Method::Post, "/upload") {
            Outcome::Upload(mut session, UploadAction::Create(id)) => {
                store.create(id.as_str()).unwrap();
                assert_eq!(session.step(UploadEvent::Opened), UploadAction::Receive);
                sessions.push(session);
            },
            outcome => panic!("{:?}", outcome),
        }
    }
    for part in 0..5 {
        for (n, session) in sessions.iter_mut().enumerate() {
            match session.step(UploadEvent::Chunk(payloads[n][part].clone())) {
                UploadAction::Write(bytes) => {
                    let id = session.id().as_str().to_string();
                    store.write(&id, &bytes).unwrap()
                },
                action => panic!("{:?}", action),
            }
        }
    }
    let mut ids = Vec::new();
    for session in sessions.iter_mut() {
        match session.step(UploadEvent::End) {
            UploadAction::Commit(id) => ids.push(id.as_str().to_string()),
            action => panic!("{:?}", action),
        }
    }
    for (n, id) in ids.iter().enumerate() {
        let expected: Vec<u8> = payloads[n].iter().flatten().copied().collect();
        assert_eq!(download(&mut store, id), (200, expected));
        assert_eq!(ids.iter().filter(|other| *other == id).count(), 1);
    }
}

#[test]
fn failed_creation_is_a_server_error() {
    let mut store = Store::new();
    store.refuses_creation = true;
    let (status, bytes) = serve(&mut store, Method::Post, "/upload", vec![vec![1, 2, 3]]);
    assert_eq!((status, bytes), (500, b"permission denied".to_vec()));
    assert_eq!(store.calls, 1);
    assert!(store.objects.is_empty());
}

#[test]
fn failed_write_is_a_server_error_and_stops_the_upload() {
    let mut store = Store::new();
    store.writes_before_failure = Some(1);
    let body = vec![vec![1], vec![2], vec![3], vec![4]];
    let (status, bytes) = serve(&mut store, Method::Post, "/upload", body);
    assert_eq!((status, bytes), (500, b"disk full".to_vec()));
    // One creation, one write that went through, one that failed, none after.
    assert_eq!(store.calls, 3);
    // What was written stays behind, under a name that nobody was told.
    assert_eq!(store.objects.len(), 1);
    assert_eq!(store.objects.values().next().unwrap(), &vec![1]);
}

#[test]
fn upload_under_a_given_identifier() {
    let mut store = Store::new();
    let id = validate("abcdefghij0123456789").unwrap();
    let response = match upload_handler(id) {
        Outcome::Upload(session, first) => {
            run_upload(&mut store, session, first, vec![vec![9, 8], vec![7]])
        },
        outcome => panic!("{:?}", outcome),
    };
    assert_eq!(
        response,
        Response { status: StatusCode::Success, body: Body::Text(String::from("abcdefghij0123456789")) }
    );
    assert_eq!(store.objects["abcdefghij0123456789"], vec![9, 8, 7]);
    assert_eq!(download(&mut store, "abcdefghij0123456789"), (200, vec![9, 8, 7]));
}

#[test]
fn every_upload_is_named_anew() {
    let mut store = Store::new();
    let mut ids = Vec::new();
    for n in 0..50u8 {
        ids.push(upload(&mut store, vec![vec![n]]));
    }
    for (n, id) in ids.iter().enumerate() {
        assert_eq!(download(&mut store, id), (200, vec![n as u8]));
    }
    ids.sort();
    ids.dedup();
    assert_eq!(ids.len(), 50);
}
