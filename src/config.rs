//! Schema configuration of an index, as callers write it, and its translation
//! into the field options that the search engine takes.
use vstd::prelude::*;

verus! {

/// What the posting lists of an indexed text field record for each term.
#[derive(Debug, Copy, Clone, PartialEq, Eq, Structural)]
pub enum FieldTermOption {
    DocId,
    Freq,
    FreqPos,
}

/// How the text of a field is split into terms.
#[derive(Debug, Clone)]
pub enum AnalyzeOption {
    /// The whole value is one term.
    Keyword,
    /// The value is split by the named analyzer.
    Analyzed(String),
}

impl AnalyzeOption {
    pub fn new_kw() -> (r: Self)
        ensures
            r is Keyword,
    {
        AnalyzeOption::Keyword
    }

    pub fn new_analyzed(analyzer: &str) -> (r: Self)
        ensures
            r matches AnalyzeOption::Analyzed(a) && a@ == analyzer@,
    {
        AnalyzeOption::Analyzed(analyzer.to_owned())
    }
}

#[derive(Debug, Clone)]
pub struct IndexOpt {
    pub analyzer: AnalyzeOption,
    pub record_options: FieldTermOption,
}

impl IndexOpt {
    /// Analyzed by `analyzer`, recording term frequencies.
    pub fn from_ananlyzer_freq(analyzer: &str) -> (r: Self)
        ensures
            r.analyzer matches AnalyzeOption::Analyzed(a) && a@ == analyzer@,
            r.record_options == FieldTermOption::Freq,
    {
        Self { analyzer: AnalyzeOption::new_analyzed(analyzer), record_options: FieldTermOption::Freq }
    }

    /// Analyzed by `analyzer` when one is named, kept as one keyword otherwise.
    pub fn from_opts(analyzer: Option<&str>, rec_opts: FieldTermOption) -> (r: Self)
        ensures
            analyzer is None ==> r.analyzer is Keyword,
            analyzer matches Some(name) ==> (r.analyzer matches AnalyzeOption::Analyzed(a) && a@
                == name@),
            r.record_options == rec_opts,
    {
        Self {
            analyzer: match analyzer {
                Some(name) => AnalyzeOption::new_analyzed(name),
                None => AnalyzeOption::Keyword,
            },
            record_options: rec_opts,
        }
    }
}

#[derive(Debug, Clone)]
pub struct TextIndexConfig {
    /// `None`: the field is stored and not searchable.
    pub index_options: Option<IndexOpt>,
    pub store: bool,
}

impl TextIndexConfig {
    /// Stored, and indexed as one keyword with document ids only.
    pub fn not_analyzed() -> (r: Self)
        ensures
            r.store,
            r.index_options matches Some(o) && o.analyzer is Keyword && o.record_options
                == FieldTermOption::DocId,
    {
        let opts = IndexOpt { analyzer: AnalyzeOption::new_kw(), record_options: FieldTermOption::DocId };
        Self { index_options: Some(opts), store: true }
    }

    pub fn stored_only() -> (r: Self)
        ensures
            r.store,
            r.index_options is None,
    {
        Self { index_options: None, store: true }
    }

    pub fn from_options(store: bool, analyzer: Option<&str>, rec_opts: FieldTermOption) -> (r: Self)
        ensures
            r.store == store,
            r.index_options matches Some(o) && o.record_options == rec_opts && (analyzer is None
                ==> o.analyzer is Keyword) && (analyzer matches Some(name) ==> (
            o.analyzer matches AnalyzeOption::Analyzed(a) && a@ == name@)),
    {
        Self { index_options: Some(IndexOpt::from_opts(analyzer, rec_opts)), store }
    }
}

#[derive(Debug, Copy, Clone, PartialEq, Eq, Structural)]
pub struct NumberIndexConfig {
    pub stored: bool,
    pub indexed: bool,
}

impl NumberIndexConfig {
    pub fn new(stored: bool, indexed: bool) -> (r: Self)
        ensures
            r.stored == stored,
            r.indexed == indexed,
    {
        Self { stored, indexed }
    }
}

#[derive(Debug, Clone)]
pub enum FieldType {
    Text(TextIndexConfig),
    Int64(NumberIndexConfig),
    UInt64(NumberIndexConfig),
    Date(NumberIndexConfig),
}

#[derive(Debug, Clone)]
pub struct Field {
    pub name: String,
    pub field_type: FieldType,
}

impl Field {
    pub fn new(name: &str, ft: FieldType) -> (r: Self)
        ensures
            r.name@ == name@,
            r.field_type == ft,
    {
        Self { name: name.to_owned(), field_type: ft }
    }
}

/// The name of an index and the fields of its schema, in order.
#[derive(Debug)]
pub struct IndexConfig {
    pub fields: Vec<Field>,
    pub index_name: String,
}

impl IndexConfig {
    pub fn new(name: &str) -> (r: Self)
        ensures
            r.index_name@ == name@,
            r.fields@ == Seq::<Field>::empty(),
    {
        Self { fields: Vec::new(), index_name: name.to_owned() }
    }

    pub fn add_field(&mut self, f: Field)
        ensures
            final(self).fields@ == old(self).fields@.push(f),
            final(self).index_name == old(self).index_name,
    {
        self.fields.push(f);
    }
}

/// Settings of the process: where indexes live, the engine writer's buffer,
/// where requests are served, and the period of the maintenance loops.
#[derive(Debug, Clone)]
pub struct AppConf {
    pub index_path: String,
    pub writer_buff_size: usize,
    pub listen_address: String,
    pub listen_port: u16,
    /// In milliseconds.
    pub auto_commit_interval: u64,
}

/// What the engine records per term of an indexed text field.
#[derive(Debug, Copy, Clone, PartialEq, Eq, Structural)]
pub enum RecordOption {
    Basic,
    WithFreqs,
    WithFreqsAndPositions,
}

pub open spec fn record_option_of(o: FieldTermOption) -> RecordOption {
    match o {
        FieldTermOption::DocId => RecordOption::Basic,
        FieldTermOption::Freq => RecordOption::WithFreqs,
        FieldTermOption::FreqPos => RecordOption::WithFreqsAndPositions,
    }
}

impl FieldTermOption {
    pub fn record_option(self) -> (r: RecordOption)
        ensures
            r == record_option_of(self),
    {
        match self {
            FieldTermOption::DocId => RecordOption::Basic,
            FieldTermOption::Freq => RecordOption::WithFreqs,
            FieldTermOption::FreqPos => RecordOption::WithFreqsAndPositions,
        }
    }
}

/// How the engine indexes a text field: the tokenizer's name and what it records.
#[derive(Debug, Clone)]
pub struct TextIndexing {
    pub tokenizer: String,
    pub record: RecordOption,
}

/// The engine's options of a text field.
#[derive(Debug, Clone)]
pub struct TextOptions {
    pub stored: bool,
    /// `None`: not indexed.
    pub indexing: Option<TextIndexing>,
}

/// The engine's options of a numeric or date field.
#[derive(Debug, Copy, Clone, PartialEq, Eq, Structural)]
pub struct IntOptions {
    pub stored: bool,
    pub indexed: bool,
}

/// The tokenizer of an analysis: the engine's `raw` one for a keyword.
pub open spec fn tokenizer_of(a: AnalyzeOption) -> Seq<char> {
    match a {
        AnalyzeOption::Keyword => seq!['r', 'a', 'w'],
        AnalyzeOption::Analyzed(s) => s@,
    }
}

pub open spec fn text_options_of(c: TextIndexConfig, o: TextOptions) -> bool {
    &&& o.stored == c.store
    &&& match c.index_options {
        None => o.indexing is None,
        Some(io) => o.indexing matches Some(x) && x.tokenizer@ == tokenizer_of(io.analyzer)
            && x.record == record_option_of(io.record_options),
    }
}

pub open spec fn int_options_of(c: NumberIndexConfig) -> IntOptions {
    IntOptions { stored: c.stored, indexed: c.indexed }
}

impl TextIndexConfig {
    pub fn text_options(&self) -> (r: TextOptions)
        ensures
            text_options_of(*self, r),
    {
        let indexing = match &self.index_options {
            None => None,
            Some(io) => {
                let tokenizer = match &io.analyzer {
                    AnalyzeOption::Keyword => {
                        let raw = "raw".to_owned();
                        proof {
                            reveal_strlit("raw");
                            assert(raw@ =~= seq!['r', 'a', 'w']);
                        }
                        raw
                    },
                    AnalyzeOption::Analyzed(an) => an.as_str().to_owned(),
                };
                Some(TextIndexing { tokenizer, record: io.record_options.record_option() })
            },
        };
        TextOptions { stored: self.store, indexing }
    }
}

impl NumberIndexConfig {
    pub fn int_options(self) -> (r: IntOptions)
        ensures
            r == int_options_of(self),
    {
        IntOptions { stored: self.stored, indexed: self.indexed }
    }
}

/// The kind of a field of the engine's schema, with its options.
#[derive(Debug, Clone)]
pub enum SchemaFieldKind {
    Text(TextOptions),
    I64(IntOptions),
    U64(IntOptions),
    Date(IntOptions),
}

/// One field of the engine's schema.
#[derive(Debug, Clone)]
pub struct SchemaField {
    pub name: String,
    pub kind: SchemaFieldKind,
}

/// `s` is the engine's field for the configured field `f`.
pub open spec fn schema_field_of(f: Field, s: SchemaField) -> bool {
    &&& s.name@ == f.name@
    &&& match f.field_type {
        FieldType::Text(c) => s.kind matches SchemaFieldKind::Text(o) && text_options_of(c, o),
        FieldType::Int64(c) => s.kind == SchemaFieldKind::I64(int_options_of(c)),
        FieldType::UInt64(c) => s.kind == SchemaFieldKind::U64(int_options_of(c)),
        FieldType::Date(c) => s.kind == SchemaFieldKind::Date(int_options_of(c)),
    }
}

/// The engine's schema of the configured fields: one field each, in order.
pub fn create_schema(fields: Vec<Field>) -> (r: Vec<SchemaField>)
    ensures
        r@.len() == fields@.len(),
        forall|i: int| 0 <= i < fields@.len() ==> schema_field_of(#[trigger] fields@[i], r@[i]),
{
    let mut r: Vec<SchemaField> = Vec::new();
    let mut i: usize = 0;
    while i < fields.len()
        invariant
            i <= fields@.len(),
            r@.len() == i,
            forall|j: int| 0 <= j < i ==> schema_field_of(#[trigger] fields@[j], r@[j]),
        decreases fields@.len() - i,
    {
        let f = &fields[i];
        let kind = match &f.field_type {
            FieldType::Text(c) => SchemaFieldKind::Text(c.text_options()),
            FieldType::Int64(c) => SchemaFieldKind::I64(c.int_options()),
            FieldType::UInt64(c) => SchemaFieldKind::U64(c.int_options()),
            FieldType::Date(c) => SchemaFieldKind::Date(c.int_options()),
        };
        r.push(SchemaField { name: f.name.as_str().to_owned(), kind });
        i = i + 1;
    }
    r
}

} // verus!
