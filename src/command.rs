//! Commands to the catalog's single worker, and the worker's decisions.
//!
//! The worker takes commands one at a time, in the order they were sent.
//! For each it holds the catalog exclusively, answers from the catalog when
//! the name is there, and otherwise asks the engine once and records the
//! outcome. Only the worker inserts into the catalog.
use vstd::prelude::*;
use crate::catalog::{has_name, lemma_slot_of, names_unique, slot_of, IndexCatalog};
use crate::config::{create_schema, schema_field_of, AppConf, IndexConfig, SchemaField};
use crate::error::{CatalogError, EngineFailure};

verus! {

/// Open the index `index_name`; the answer goes to `reply_on`.
pub struct OpenIndexCmd<R> {
    pub index_name: String,
    pub reply_on: R,
}

impl<R> OpenIndexCmd<R> {
    pub fn new(name: &str, s: R) -> (r: Self)
        ensures
            r.index_name@ == name@,
            r.reply_on == s,
    {
        Self { index_name: name.to_owned(), reply_on: s }
    }
}

/// Create the index that `index_config` describes; the answer goes to `reply_on`.
pub struct CreateIndexCmd<R> {
    pub index_config: IndexConfig,
    pub reply_on: R,
}

impl<R> CreateIndexCmd<R> {
    pub fn new(iconf: IndexConfig, s: R) -> (r: Self)
        ensures
            r.index_config == iconf,
            r.reply_on == s,
    {
        Self { index_config: iconf, reply_on: s }
    }
}

pub enum IndexCommand<R> {
    Open(OpenIndexCmd<R>),
    Create(CreateIndexCmd<R>),
}

impl<R> IndexCommand<R> {
    /// The name of the index that the command is about.
    pub open spec fn name(&self) -> Seq<char> {
        match self {
            IndexCommand::Open(o) => o.index_name@,
            IndexCommand::Create(c) => c.index_config.index_name@,
        }
    }

    pub open spec fn reply(&self) -> R {
        match self {
            IndexCommand::Open(o) => o.reply_on,
            IndexCommand::Create(c) => c.reply_on,
        }
    }
}

/// A call that the engine makes for a command the catalog cannot answer.
#[derive(Debug)]
pub enum EngineRequest {
    /// Open the existing index `name` under `location`.
    Open { location: String, name: String },
    /// Create the index `name` under `location` with `schema`.
    Create { location: String, name: String, schema: Vec<SchemaField> },
}

impl EngineRequest {
    pub open spec fn name(&self) -> Seq<char> {
        match self {
            EngineRequest::Open { name, .. } => name@,
            EngineRequest::Create { name, .. } => name@,
        }
    }
}

/// How a command is answered: from the catalog's slot, or by the engine.
#[derive(Debug)]
pub enum Resolution {
    Cached(usize),
    Engine(EngineRequest),
}

/// A command's reply channel, with how the command is answered.
pub struct Dispatch<R> {
    pub reply_on: R,
    pub resolution: Resolution,
}

/// The catalog's worker: the settings it opens and creates indexes with.
#[derive(Clone)]
pub struct IndexCommandHandler {
    app_conf: AppConf,
}

impl IndexCommandHandler {
    pub closed spec fn conf(&self) -> AppConf {
        self.app_conf
    }

    pub fn new(conf: AppConf) -> (r: Self)
        ensures
            r.conf() == conf,
    {
        Self { app_conf: conf }
    }

    /// Decides how `cmd` is answered, looking at the catalog only.
    ///
    /// A name the catalog holds is answered from its slot, for an open and a
    /// create alike (creating an index that exists is no error). Otherwise
    /// the engine is asked to open the index, or to create it with the
    /// schema of the configured fields, under the configured location.
    pub fn handle_command<H, R>(&self, cmd: IndexCommand<R>, catalog: &IndexCatalog<H>) -> (r:
        Dispatch<R>)
        requires
            catalog.wf(),
        ensures
            r.reply_on == cmd.reply(),
            has_name(catalog.names(), cmd.name()) ==> (r.resolution matches Resolution::Cached(i)
                && i == slot_of(catalog.names(), cmd.name())),
            !has_name(catalog.names(), cmd.name()) ==> match cmd {
                IndexCommand::Open(o) => (r.resolution matches Resolution::Engine(
                    EngineRequest::Open { location, name },
                ) && location@ == self.conf().index_path@ && name@ == o.index_name@),
                IndexCommand::Create(c) => (r.resolution matches Resolution::Engine(
                    EngineRequest::Create { location, name, schema },
                ) && location@ == self.conf().index_path@ && name@ == c.index_config.index_name@
                    && schema@.len() == c.index_config.fields@.len() && forall|j: int|
                    0 <= j < schema@.len() ==> schema_field_of(
                    #[trigger] c.index_config.fields@[j],
                    schema@[j],
                )),
            },
    {
        match cmd {
            IndexCommand::Open(o) => {
                let resolution = match catalog.index_of(o.index_name.as_str()) {
                    Some(i) => Resolution::Cached(i),
                    None => Resolution::Engine(
                        EngineRequest::Open {
                            location: self.app_conf.index_path.as_str().to_owned(),
                            name: o.index_name,
                        },
                    ),
                };
                Dispatch { reply_on: o.reply_on, resolution }
            },
            IndexCommand::Create(c) => {
                let resolution = match catalog.index_of(c.index_config.index_name.as_str()) {
                    Some(i) => Resolution::Cached(i),
                    None => Resolution::Engine(
                        EngineRequest::Create {
                            location: self.app_conf.index_path.as_str().to_owned(),
                            name: c.index_config.index_name,
                            schema: create_schema(c.index_config.fields),
                        },
                    ),
                };
                Dispatch { reply_on: c.reply_on, resolution }
            },
        }
    }

    /// Records what the engine answered to `request`.
    ///
    /// On success the new handle takes a new last slot, whose number is
    /// returned; the caller then starts the index's maintenance loop. On
    /// failure the catalog is unchanged and the error tells an open from a
    /// create.
    pub fn complete<H>(
        &self,
        catalog: &mut IndexCatalog<H>,
        request: EngineRequest,
        outcome: Result<H, EngineFailure>,
    ) -> (r: Result<usize, CatalogError>)
        requires
            old(catalog).wf(),
            !has_name(old(catalog).names(), request.name()),
        ensures
            final(catalog).wf(),
            outcome matches Ok(h) ==> r == Ok::<usize, CatalogError>(old(catalog).names().len() as usize)
                && final(catalog).names() == old(catalog).names().push(request.name())
                && final(catalog).handles() == old(catalog).handles().push(h),
            outcome matches Err(e) ==> final(catalog).names() == old(catalog).names()
                && final(catalog).handles() == old(catalog).handles() && r == Err::<
                usize,
                CatalogError,
            >(
                match request {
                    EngineRequest::Open { .. } => CatalogError::OpenError(e),
                    EngineRequest::Create { .. } => CatalogError::CreateError(e),
                },
            ),
    {
        match outcome {
            Ok(h) => {
                let name = match request {
                    EngineRequest::Open { name, .. } => name,
                    EngineRequest::Create { name, .. } => name,
                };
                Ok(catalog.insert(name, h))
            },
            Err(e) => match request {
                EngineRequest::Open { .. } => Err(CatalogError::OpenError(e)),
                EngineRequest::Create { .. } => Err(CatalogError::CreateError(e)),
            },
        }
    }
}

/// A caller's lookup: the cached handle of `name`, or else the open command
/// to send to the worker, carrying `reply_on`.
///
/// It only reads the catalog; the caller releases its read access before it
/// sends the command and waits for the reply, since the worker needs
/// exclusive access to answer.
pub fn open_request<'a, H, R>(catalog: &'a IndexCatalog<H>, name: &str, reply_on: R) -> (r: Result<
    &'a H,
    IndexCommand<R>,
>)
    requires
        catalog.wf(),
    ensures
        has_name(catalog.names(), name@) ==> (r matches Ok(h) && *h == catalog.handles()[slot_of(
            catalog.names(),
            name@,
        )]),
        !has_name(catalog.names(), name@) ==> (r matches Err(IndexCommand::Open(o))
            && o.index_name@ == name@ && o.reply_on == reply_on),
{
    match catalog.get_index_handle(name) {
        Some(h) => Ok(h),
        None => Err(IndexCommand::Open(OpenIndexCmd::new(name, reply_on))),
    }
}

/// Serving one request for `name` when the engine succeeds: the names
/// after, whether the engine was called, and the slot replied with.
pub open spec fn served(names: Seq<Seq<char>>, name: Seq<char>) -> (Seq<Seq<char>>, bool, int) {
    if has_name(names, name) {
        (names, false, slot_of(names, name))
    } else {
        (names.push(name), true, names.len() as int)
    }
}

/// Serving `reqs` in order when the engine succeeds: the names after, the
/// number of engine calls, and the slot replied to each request.
pub open spec fn serve_all(names: Seq<Seq<char>>, reqs: Seq<Seq<char>>) -> (
    Seq<Seq<char>>,
    nat,
    Seq<int>,
)
    decreases reqs.len(),
{
    if reqs.len() == 0 {
        (names, 0, Seq::empty())
    } else {
        let (n1, called, slot) = served(names, reqs[0]);
        let (n2, calls, slots) = serve_all(n1, reqs.drop_first());
        (n2, calls + if called {
            1nat
        } else {
            0nat
        }, seq![slot] + slots)
    }
}

/// Serving a request keeps the names unique.
pub proof fn lemma_served_unique(names: Seq<Seq<char>>, name: Seq<char>)
    requires
        names_unique(names),
    ensures
        names_unique(served(names, name).0),
        has_name(served(names, name).0, name),
        slot_of(served(names, name).0, name) == served(names, name).2,
{
    if has_name(names, name) {
        let i = choose|i: int| 0 <= i < names.len() && names[i] == name;
        lemma_slot_of(names, name, i);
    } else {
        let n1 = names.push(name);
        assert(names_unique(n1));
        lemma_slot_of(n1, name, names.len() as int);
    }
}

/// Requests for a name the catalog holds call no engine and are all answered
/// with its slot.
pub proof fn lemma_serve_cached(names: Seq<Seq<char>>, name: Seq<char>, n: nat)
    requires
        names_unique(names),
        has_name(names, name),
    ensures
        serve_all(names, Seq::new(n, |k: int| name)).0 == names,
        serve_all(names, Seq::new(n, |k: int| name)).1 == 0,
        serve_all(names, Seq::new(n, |k: int| name)).2 == Seq::new(n, |k: int| slot_of(names, name)),
    decreases n,
{
    let reqs = Seq::new(n, |k: int| name);
    if n > 0 {
        assert(reqs.drop_first() =~= Seq::new((n - 1) as nat, |k: int| name));
        lemma_serve_cached(names, name, (n - 1) as nat);
        assert(serve_all(names, reqs).2 =~= Seq::new(n, |k: int| slot_of(names, name)));
    }
}

/// Single flight: any number `n >= 1` of requests for a name that the
/// catalog does not hold, served in order while the engine succeeds, call
/// the engine exactly once, and all are answered with the same slot, the one
/// the name was inserted in.
pub proof fn lemma_single_flight(names: Seq<Seq<char>>, name: Seq<char>, n: nat)
    requires
        names_unique(names),
        !has_name(names, name),
        n >= 1,
    ensures
        serve_all(names, Seq::new(n, |k: int| name)).0 == names.push(name),
        serve_all(names, Seq::new(n, |k: int| name)).1 == 1,
        serve_all(names, Seq::new(n, |k: int| name)).2 == Seq::new(n, |k: int| names.len() as int),
{
    let reqs = Seq::new(n, |k: int| name);
    let n1 = names.push(name);
    lemma_served_unique(names, name);
    assert(reqs.drop_first() =~= Seq::new((n - 1) as nat, |k: int| name));
    lemma_serve_cached(n1, name, (n - 1) as nat);
    assert(serve_all(names, reqs).2 =~= Seq::new(n, |k: int| names.len() as int));
}

/// Creating an index twice under one name calls the engine once, and the
/// second create is answered with the first one's slot, the catalog
/// unchanged by it.
pub proof fn lemma_create_twice(names: Seq<Seq<char>>, name: Seq<char>)
    requires
        names_unique(names),
        !has_name(names, name),
    ensures
        serve_all(names, seq![name, name]).1 == 1,
        serve_all(names, seq![name, name]).2[1] == serve_all(names, seq![name, name]).2[0],
        served(served(names, name).0, name).0 == served(names, name).0,
{
    assert(seq![name, name] =~= Seq::new(2, |k: int| name));
    lemma_single_flight(names, name, 2);
    lemma_served_unique(names, name);
}

} // verus!
