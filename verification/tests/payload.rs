use rocket_raw_response::{
    Body, Framing, MediaType, OpenOutcome, PayloadError, RawResponse, RawResponsePro,
    TemporaryUpload,
};

#[derive(Debug, PartialEq)]
struct Reader(u32);

#[derive(Debug, PartialEq)]
struct FileHandle(u32);

#[derive(Debug, PartialEq)]
struct UploadHandle(u32);

type Payload<'o> = RawResponsePro<'o, Reader, FileHandle, UploadHandle>;

fn name(text: &str) -> Option<String> {
    Some(String::from(text))
}

fn media(text: &str) -> Option<MediaType> {
    Some(MediaType::new(String::from(text)))
}

fn upload(
    name: Option<&str>,
    content_type: Option<&str>,
    len: u64,
) -> TemporaryUpload<UploadHandle> {
    TemporaryUpload {
        name: name.map(String::from),
        content_type: content_type.map(|text| MediaType::new(String::from(text))),
        len,
        handle: UploadHandle(7),
    }
}

fn opened(size: u64) -> OpenOutcome<FileHandle> {
    OpenOutcome::Opened { handle: FileHandle(3), is_regular: true, size }
}

fn file(path: &str, size: u64, file_name: Option<String>, content_type: Option<MediaType>) -> Payload<'static> {
    Payload::from_file(String::from(path), opened(size), file_name, content_type).unwrap()
}

fn every_source_with(file_name: Option<&str>, content_type: Option<&str>) -> Vec<Payload<'static>> {
    let file_name = || file_name.map(String::from);
    let content_type = || content_type.map(|text| MediaType::new(String::from(text)));
    vec![
        Payload::from_vec(vec![1, 2, 3], file_name(), content_type()),
        Payload::from_slice(b"abc", file_name(), content_type()),
        Payload::from_reader(Reader(1), file_name(), content_type(), Some(9)),
        Payload::from_reader(Reader(1), file_name(), content_type(), None),
        file("a/b/report.pdf", 10, file_name(), content_type()),
        Payload::from_temp_file(upload(Some("up.png"), Some("image/png"), 4), file_name(), content_type()),
        Payload::from_temp_file(upload(None, None, 4), file_name(), content_type()),
    ]
}

#[test]
fn empty_file_name_gives_bare_inline_for_every_source() {
    for payload in every_source_with(Some(""), None) {
        assert_eq!(payload.content_disposition(), "inline");
        assert_eq!(payload.emit().headers.content_disposition, "inline");
    }
}

#[test]
fn explicit_file_name_is_inline_for_every_source() {
    for payload in every_source_with(Some("x y.txt"), None) {
        assert_eq!(payload.content_disposition(), "inline; filename*=UTF-8''x%20y.txt");
    }
}

#[test]
fn explicit_file_name_round_trips_for_every_source() {
    let chosen = "résumé (final) 貓.pdf";
    for payload in every_source_with(Some(chosen), None) {
        let value = payload.emit().headers.content_disposition;
        let encoded = value.strip_prefix("inline; filename*=UTF-8''").unwrap();
        assert_eq!(url_escape::decode(encoded), chosen);
    }
}

#[test]
fn file_without_file_name_is_named_by_its_path() {
    let payload = file("a/b/report.pdf", 10, None, None);
    let value = payload.content_disposition();
    assert_eq!(value, "inline; filename*=UTF-8''report.pdf");
    let encoded = value.strip_prefix("inline; filename*=UTF-8''").unwrap();
    assert_eq!(url_escape::decode(encoded), "report.pdf");
}

#[test]
fn file_with_non_ascii_name_in_its_path() {
    let payload = file("examples/images/image(貓).jpg", 10, None, None);
    let parts = payload.emit();
    assert_eq!(
        parts.headers.content_disposition,
        "inline; filename*=UTF-8''image%28%E8%B2%93%29.jpg"
    );
    assert_eq!(parts.headers.content_type, media("image/jpeg"));
}

#[test]
fn file_whose_path_has_no_final_component_is_bare_inline() {
    let payload = file("a/..", 10, None, None);
    let parts = payload.emit();
    assert_eq!(parts.headers.content_disposition, "inline");
    assert_eq!(parts.headers.content_type, media("application/octet-stream"));
}

#[test]
fn upload_with_declared_name_defaults_to_attachment() {
    let payload = Payload::from_temp_file(upload(Some("photo 1.png"), None, 4), None, None);
    assert_eq!(payload.content_disposition(), "attachment; filename*=UTF-8''photo%201.png");
}

#[test]
fn file_with_name_defaults_to_inline() {
    let payload = file("photo 1.png", 4, None, None);
    assert_eq!(payload.content_disposition(), "inline; filename*=UTF-8''photo%201.png");
}

#[test]
fn upload_with_explicit_file_name_is_inline() {
    let payload =
        Payload::from_temp_file(upload(Some("declared.png"), None, 4), name("chosen.png"), None);
    assert_eq!(payload.content_disposition(), "inline; filename*=UTF-8''chosen.png");
}

#[test]
fn upload_without_usable_name_is_bare_inline() {
    let payload = Payload::from_temp_file(upload(None, None, 4), None, None);
    assert_eq!(payload.content_disposition(), "inline");
    let payload = Payload::from_temp_file(upload(Some(""), None, 4), None, None);
    assert_eq!(payload.content_disposition(), "inline");
}

#[test]
fn buffers_and_readers_without_file_name_are_bare_inline() {
    assert_eq!(Payload::from_vec(vec![1], None, None).content_disposition(), "inline");
    assert_eq!(Payload::from_slice(b"a", None, None).content_disposition(), "inline");
    assert_eq!(Payload::from_reader(Reader(1), None, None, None).content_disposition(), "inline");
}

#[test]
fn explicit_content_type_wins_for_every_source() {
    for payload in every_source_with(Some("page.html"), Some("application/x-custom")) {
        assert_eq!(payload.content_type(), media("application/x-custom"));
    }
    for payload in every_source_with(None, Some("application/x-custom")) {
        assert_eq!(payload.emit().headers.content_type, media("application/x-custom"));
    }
}

#[test]
fn explicit_file_name_gives_the_content_type_of_buffers_and_readers() {
    assert_eq!(Payload::from_vec(vec![1], name("a.png"), None).content_type(), media("image/png"));
    assert_eq!(Payload::from_slice(b"a", name("a.PDF"), None).content_type(), media("application/pdf"));
    assert_eq!(
        Payload::from_reader(Reader(1), name("dir/a.txt"), None, None).content_type(),
        media("text/plain")
    );
}

#[test]
fn buffers_and_readers_without_name_have_no_content_type() {
    assert_eq!(Payload::from_vec(vec![1], None, None).content_type(), None);
    assert_eq!(Payload::from_slice(b"a", None, None).content_type(), None);
    assert_eq!(Payload::from_reader(Reader(1), None, None, Some(1)).content_type(), None);
    assert_eq!(Payload::from_vec(vec![1], name(""), None).content_type(), None);
    assert_eq!(Payload::from_reader(Reader(1), name(""), None, None).content_type(), None);
}

#[test]
fn explicit_file_name_goes_before_the_path_of_a_file() {
    let payload = file("a/b/report.pdf", 10, name("cover.png"), None);
    assert_eq!(payload.content_type(), media("image/png"));
}

#[test]
fn empty_file_name_leaves_the_content_type_to_the_path() {
    let payload = file("a/b/report.pdf", 10, name(""), None);
    assert_eq!(payload.content_type(), media("application/pdf"));
}

#[test]
fn file_content_type_is_guessed_from_its_path() {
    assert_eq!(file("a/b/report.pdf", 10, None, None).content_type(), media("application/pdf"));
    assert_eq!(file("a/b/REPORT.PDF", 10, None, None).content_type(), media("application/pdf"));
    assert_eq!(file("a.png/b", 10, None, None).content_type(), media("application/octet-stream"));
}

#[test]
fn name_without_extension_is_octet_stream() {
    assert_eq!(file("bin/Makefile", 10, None, None).content_type(), media("application/octet-stream"));
    assert_eq!(file("home/.bashrc", 10, None, None).content_type(), media("application/octet-stream"));
    assert_eq!(
        Payload::from_vec(vec![1], name("README"), None).content_type(),
        media("application/octet-stream")
    );
}

#[test]
fn unknown_extension_is_octet_stream() {
    assert_eq!(
        file("data/blob.unknownext", 10, None, None).content_type(),
        media("application/octet-stream")
    );
}

#[test]
fn upload_declared_content_type_goes_before_any_guess() {
    let payload =
        Payload::from_temp_file(upload(Some("a.png"), Some("text/csv"), 4), name("b.pdf"), None);
    assert_eq!(payload.content_type(), media("text/csv"));
}

#[test]
fn upload_content_type_is_guessed_from_names_when_none_is_declared() {
    let payload = Payload::from_temp_file(upload(Some("a.png"), None, 4), None, None);
    assert_eq!(payload.content_type(), media("image/png"));
    let payload = Payload::from_temp_file(upload(Some("a.png"), None, 4), name("b.pdf"), None);
    assert_eq!(payload.content_type(), media("application/pdf"));
    let payload = Payload::from_temp_file(upload(Some("a.png"), None, 4), name(""), None);
    assert_eq!(payload.content_type(), media("image/png"));
}

#[test]
fn upload_without_name_or_type_is_octet_stream() {
    let payload = Payload::from_temp_file(upload(None, None, 4), None, None);
    assert_eq!(payload.content_type(), media("application/octet-stream"));
    let payload = Payload::from_temp_file(upload(Some(""), None, 4), None, None);
    assert_eq!(payload.content_type(), media("application/octet-stream"));
    let payload = Payload::from_temp_file(upload(Some("sanitized"), None, 4), None, None);
    assert_eq!(payload.content_type(), media("application/octet-stream"));
}

#[test]
fn files_and_uploads_always_have_a_content_type() {
    for path in ["a/b/report.pdf", "Makefile", "a/..", "", "/", "x.unknownext"] {
        assert!(file(path, 1, None, None).content_type().is_some());
        assert!(file(path, 1, name(""), None).content_type().is_some());
    }
    for declared in [None, Some(""), Some("a"), Some("a.png")] {
        assert!(Payload::from_temp_file(upload(declared, None, 1), None, None)
            .content_type()
            .is_some());
    }
}

#[test]
fn explicit_name_without_a_final_component_is_octet_stream() {
    assert_eq!(
        Payload::from_vec(vec![1], name("a/.."), None).content_type(),
        media("application/octet-stream")
    );
    assert_eq!(
        Payload::from_reader(Reader(1), name("/"), None, None).content_type(),
        media("application/octet-stream")
    );
}

#[test]
fn content_length_of_owned_bytes_is_their_count() {
    for len in [0usize, 1, 2, 255, 4096] {
        let payload = Payload::from_vec(vec![0u8; len], None, None);
        assert_eq!(payload.content_length(), Some(len as u64));
        let parts = Payload::from_vec(vec![0u8; len], None, None).emit();
        assert_eq!(parts.headers.content_length, Some(len as u64));
        assert_eq!(parts.framing, Framing::Sized(len as u64));
    }
}

#[test]
fn content_length_of_borrowed_bytes_is_their_count() {
    let data = vec![7u8; 1000];
    for len in [0usize, 1, 999, 1000] {
        let parts = Payload::from_slice(&data[..len], None, None).emit();
        assert_eq!(parts.headers.content_length, Some(len as u64));
        assert_eq!(parts.framing, Framing::Sized(len as u64));
    }
}

#[test]
fn reader_without_length_has_no_content_length_and_is_chunked() {
    let parts = Payload::from_reader(Reader(5), None, None, None).emit();
    assert_eq!(parts.headers.content_length, None);
    assert_eq!(parts.framing, Framing::Chunked);
    assert!(parts.headers.into_pairs().iter().all(|(name, _)| name != "Content-Length"));
}

#[test]
fn reader_with_length_states_it() {
    let parts = Payload::from_reader(Reader(5), None, None, Some(1234)).emit();
    assert_eq!(parts.headers.content_length, Some(1234));
    assert_eq!(parts.framing, Framing::Sized(1234));
}

#[test]
fn file_content_length_is_the_size_found_at_opening() {
    let parts = file("a/b/report.pdf", 987_654_321_000, None, None).emit();
    assert_eq!(parts.headers.content_length, Some(987_654_321_000));
    assert_eq!(parts.framing, Framing::Sized(987_654_321_000));
}

#[test]
fn upload_content_length_is_the_declared_size() {
    let parts = Payload::from_temp_file(upload(None, None, 42), None, None).emit();
    assert_eq!(parts.headers.content_length, Some(42));
    assert_eq!(parts.framing, Framing::Sized(42));
}

#[test]
fn from_file_on_a_missing_path_is_not_found() {
    let result = Payload::from_file(String::from("nowhere.txt"), OpenOutcome::Missing, None, None);
    assert_eq!(result.unwrap_err(), PayloadError::NotFound);
}

#[test]
fn from_file_on_a_directory_is_invalid_input() {
    let outcome = OpenOutcome::Opened { handle: FileHandle(1), is_regular: false, size: 4096 };
    let result = Payload::from_file(String::from("some/dir"), outcome, None, None);
    assert_eq!(result.unwrap_err(), PayloadError::InvalidInput);
}

#[test]
fn from_file_on_a_failed_open_is_io() {
    let result = Payload::from_file(String::from("locked.txt"), OpenOutcome::Failed, None, None);
    assert_eq!(result.unwrap_err(), PayloadError::Io);
}

#[test]
fn from_file_on_a_regular_file_keeps_handle_and_size() {
    let outcome = OpenOutcome::Opened { handle: FileHandle(11), is_regular: true, size: 77 };
    let payload = Payload::from_file(String::from("a/b.txt"), outcome, None, None).unwrap();
    let parts = payload.emit();
    assert_eq!(parts.headers.content_length, Some(77));
    assert!(matches!(parts.body, Body::File(FileHandle(11))));
}

#[test]
fn body_of_owned_bytes_is_the_buffer() {
    let parts = Payload::from_vec(vec![1, 2, 3], None, None).emit();
    assert!(matches!(parts.body, Body::Bytes(ref bytes) if bytes == &[1, 2, 3]));
}

#[test]
fn body_of_borrowed_bytes_is_the_slice() {
    let data = [9u8, 8, 7];
    let parts = Payload::from_slice(&data, None, None).emit();
    assert!(matches!(parts.body, Body::Slice(bytes) if std::ptr::eq(bytes, &data[..])));
}

#[test]
fn body_of_a_reader_is_that_reader() {
    let parts = Payload::from_reader(Reader(21), None, None, Some(3)).emit();
    assert!(matches!(parts.body, Body::Reader(Reader(21))));
}

#[test]
fn body_of_an_upload_is_its_handle() {
    let parts = Payload::from_temp_file(upload(Some("a"), None, 1), None, None).emit();
    assert!(matches!(parts.body, Body::Upload(UploadHandle(7))));
}

#[test]
fn static_payload_alias() {
    let payload: RawResponse<Reader, FileHandle, UploadHandle> =
        RawResponse::from_slice(b"static bytes", name("s.txt"), None);
    let parts = payload.emit();
    assert_eq!(parts.headers.content_length, Some(12));
    assert_eq!(parts.headers.content_type, media("text/plain"));
}

#[test]
fn emit_agrees_with_the_single_headers() {
    for payload in every_source_with(Some("a b.svg"), None) {
        let disposition = payload.content_disposition();
        let content_type = payload.content_type();
        let content_length = payload.content_length();
        let parts = payload.emit();
        assert_eq!(parts.headers.content_disposition, disposition);
        assert_eq!(parts.headers.content_type, content_type);
        assert_eq!(parts.headers.content_length, content_length);
    }
}
