use nimool::config::{
    create_schema, AnalyzeOption, Field, FieldTermOption, FieldType, IndexConfig, IndexOpt,
    IntOptions, NumberIndexConfig, RecordOption, SchemaFieldKind, TextIndexConfig,
};
use nimool::error::{doc_parsing_err_to_string, DocParsingError, MyErr, NimoolError};

#[test]
fn text_config_builders() {
    let t = TextIndexConfig::not_analyzed();
    assert!(t.store);
    let o = t.index_options.unwrap();
    assert!(matches!(o.analyzer, AnalyzeOption::Keyword));
    assert_eq!(o.record_options, FieldTermOption::DocId);
    assert!(TextIndexConfig::stored_only().index_options.is_none());
    let o = IndexOpt::from_ananlyzer_freq("en_stem");
    assert!(matches!(o.analyzer, AnalyzeOption::Analyzed(ref a) if a == "en_stem"));
    assert_eq!(o.record_options, FieldTermOption::Freq);
    let o = IndexOpt::from_opts(None, FieldTermOption::FreqPos);
    assert!(matches!(o.analyzer, AnalyzeOption::Keyword));
    assert!(matches!(AnalyzeOption::new_kw(), AnalyzeOption::Keyword));
}

#[test]
fn text_options_translation() {
    let opts = TextIndexConfig::not_analyzed().text_options();
    assert!(opts.stored);
    let ix = opts.indexing.unwrap();
    assert_eq!(ix.tokenizer, "raw");
    assert_eq!(ix.record, RecordOption::Basic);
    let opts = TextIndexConfig::from_options(false, Some("default"), FieldTermOption::FreqPos).text_options();
    assert!(!opts.stored);
    let ix = opts.indexing.unwrap();
    assert_eq!(ix.tokenizer, "default");
    assert_eq!(ix.record, RecordOption::WithFreqsAndPositions);
    assert!(TextIndexConfig::stored_only().text_options().indexing.is_none());
    assert_eq!(FieldTermOption::Freq.record_option(), RecordOption::WithFreqs);
}

#[test]
fn schema_of_fields_in_order() {
    let mut cfg = IndexConfig::new("events");
    cfg.add_field(Field::new("when", FieldType::Date(NumberIndexConfig::new(true, false))));
    cfg.add_field(Field::new("count", FieldType::UInt64(NumberIndexConfig::new(false, true))));
    cfg.add_field(Field::new("body", FieldType::Text(TextIndexConfig::stored_only())));
    assert_eq!(cfg.index_name, "events");
    let schema = create_schema(cfg.fields);
    assert_eq!(schema.len(), 3);
    assert_eq!(schema[0].name, "when");
    assert!(matches!(schema[0].kind, SchemaFieldKind::Date(IntOptions { stored: true, indexed: false })));
    assert_eq!(schema[1].name, "count");
    assert!(matches!(schema[1].kind, SchemaFieldKind::U64(IntOptions { stored: false, indexed: true })));
    assert!(matches!(schema[2].kind, SchemaFieldKind::Text(ref t) if t.stored && t.indexing.is_none()));
    assert!(create_schema(Vec::new()).is_empty());
}

#[test]
fn error_messages() {
    assert_eq!(doc_parsing_err_to_string(DocParsingError::NotJSON("bad".to_string())), "bad");
    assert_eq!(
        doc_parsing_err_to_string(DocParsingError::ValueError("price".to_string(), "U64".to_string())),
        "price U64"
    );
    assert_eq!(NimoolError::ChannelSendErr("closed".to_string()).unwrap(), "closed");
    let e = NimoolError::from("receiver dropped");
    assert!(matches!(e, NimoolError::GeneralError(ref s) if s == "receiver dropped"));
    assert_eq!(e.unwrap(), "receiver dropped");
    assert_eq!(MyErr::new("boom").s, "boom");
}
