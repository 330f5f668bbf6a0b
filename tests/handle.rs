use nimool::error::{CatalogError, DocParsingError};
use nimool::idx::{AddDocConfig, AddStep, Doc, IndexDescriptor, IndexResult};

#[test]
fn add_with_commit_resets_the_count() {
    let mut d = IndexDescriptor::new("books", vec!["title".to_string()]);
    d.add_document(Ok(0), AddDocConfig { commit: false });
    d.add_document(Ok(1), AddDocConfig { commit: false });
    let doc = Doc { doc: "{\"title\": \"dune\"}", config: AddDocConfig { commit: true } };
    assert_eq!(d.add_document(Ok(2), doc.config), AddStep::Commit);
    assert_eq!(d.uncommitted_count(), 2);
    assert_eq!(d.commit_finished(Ok(3)), Ok(3));
    assert_eq!(d.uncommitted_count(), 0);
    assert!(!d.needs_commit());
}

#[test]
fn failed_commit_keeps_the_count() {
    let mut d = IndexDescriptor::new("books", vec![]);
    d.add_document(Ok(0), AddDocConfig { commit: false });
    assert_eq!(d.add_document(Ok(1), AddDocConfig { commit: true }), AddStep::Commit);
    assert_eq!(
        d.commit_finished(Err("no space left".to_string())),
        Err(CatalogError::CommitError("no space left".to_string()))
    );
    assert_eq!(d.uncommitted_count(), 1);
    assert!(d.needs_commit());
}

#[test]
fn parse_errors_count_nothing() {
    let mut d = IndexDescriptor::new("books", vec![]);
    let step = d.add_document(
        Err(DocParsingError::ValueError("year".to_string(), "\"abc\"".to_string())),
        AddDocConfig { commit: true },
    );
    assert_eq!(step, AddStep::Done(Err(CatalogError::DocumentParseError("year \"abc\"".to_string()))));
    let step = d.add_document(
        Err(DocParsingError::NoSuchFieldInSchema("colour".to_string())),
        AddDocConfig { commit: false },
    );
    assert_eq!(step, AddStep::Done(Err(CatalogError::DocumentParseError("colour".to_string()))));
    assert_eq!(d.uncommitted_count(), 0);
}

#[test]
fn descriptor_keeps_name_and_fields() {
    let d = IndexDescriptor::new("books", vec!["title".to_string(), "year".to_string()]);
    assert_eq!(d.get_name(), "books");
    assert_eq!(d.get_raw_fields(), vec!["title".to_string(), "year".to_string()]);
    let r = IndexResult::new(d, 5u8);
    assert_eq!(r.shut_down_handle, 5);
    assert_eq!(r.descriptor.get_name(), "books");
}
