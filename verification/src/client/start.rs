//! The first screen: the choice of the store to start with.

use vstd::prelude::*;

use crate::bstore::StoreType;

verus! {

/// The kinds of store offered.
#[derive(Clone, Copy, Debug, PartialEq, Eq, Structural)]
pub enum StoreKind {
    Memory,
    Local,
    Grpc,
}

/// What the start screen asks for.
#[derive(Debug)]
pub enum UIRequest {
    /// Start with this store; the second field, a server to run, is unused.
    Start(StoreType, Option<String>),
    Close,
}

/// What the model tells the start screen.
#[derive(Debug)]
pub enum UIResponse {
    Error(String),
}

/// The keys pressed on the start screen.
#[derive(Clone, Copy, Debug)]
pub struct StartKeys {
    pub escape: bool,
    /// T: the memory store.
    pub memory: bool,
    /// L: the local store.
    pub local: bool,
    /// G: the gRPC store.
    pub grpc: bool,
    /// D: the default parameter of the kind chosen.
    pub default: bool,
    /// Command-Enter: start.
    pub start: bool,
}

/// The address of the gRPC server when none is given.
pub open spec fn default_server() -> Seq<char> {
    "http://127.0.0.1:8080"@
}

/// The view of an optional string.
pub open spec fn opt_text(s: Option<String>) -> Option<Seq<char>> {
    match s {
        Some(s) => Some(s@),
        None => None,
    }
}

/// The request that starting gives for `kind` and `param`, none when the
/// local store has no file.
pub open spec fn start_request(kind: StoreKind, param: Option<Seq<char>>, r: Option<UIRequest>) -> bool {
    match kind {
        StoreKind::Memory => r matches Some(UIRequest::Start(StoreType::Memory, None)),
        StoreKind::Local => match param {
            None => r is None,
            Some(p) => r matches Some(UIRequest::Start(StoreType::Local(q), None)) && q@ == p,
        },
        StoreKind::Grpc => r matches Some(UIRequest::Start(StoreType::Grpc(q), None))
            && q@ == (match param { Some(p) => p, None => default_server() }),
    }
}

/// The state of the start screen.
pub struct StartUI {
    store: StoreKind,
    param: Option<String>,
    error_text: Option<String>,
}

impl StartUI {
    /// The kind of store chosen.
    pub closed spec fn store(&self) -> StoreKind {
        self.store
    }

    /// The file or address given for the store.
    pub closed spec fn param(&self) -> Option<Seq<char>> {
        opt_text(self.param)
    }

    /// The error shown.
    pub closed spec fn error_text(&self) -> Option<Seq<char>> {
        opt_text(self.error_text)
    }

    /// The memory store chosen, nothing given, no error.
    pub fn new() -> (r: Self)
        ensures
            r.store() == StoreKind::Memory,
            r.param() is None,
            r.error_text() is None,
    {
        StartUI { store: StoreKind::Memory, param: None, error_text: None }
    }

    /// The kind of store chosen.
    pub fn kind(&self) -> (r: StoreKind)
        ensures
            r == self.store(),
    {
        self.store
    }

    /// Chooses the kind of store.
    pub fn pick(&mut self, kind: StoreKind)
        ensures
            final(self).store() == kind,
            final(self).param() == old(self).param(),
            final(self).error_text() == old(self).error_text(),
    {
        self.store = kind;
    }

    /// The file or address given.
    pub fn param_ref(&self) -> (r: &Option<String>)
        ensures
            opt_text(*r) == self.param(),
    {
        &self.param
    }

    /// Gives the file or address of the store.
    pub fn set_param(&mut self, param: String)
        ensures
            final(self).param() == Some(param@),
            final(self).store() == old(self).store(),
            final(self).error_text() == old(self).error_text(),
    {
        self.param = Some(param);
    }

    /// The error shown.
    pub fn error_ref(&self) -> (r: &Option<String>)
        ensures
            opt_text(*r) == self.error_text(),
    {
        &self.error_text
    }

    /// Shows the last error reported.
    pub fn handle_ui_response(&mut self, resps: &Vec<UIResponse>)
        ensures
            final(self).store() == old(self).store(),
            final(self).param() == old(self).param(),
            resps.len() == 0 ==> final(self).error_text() == old(self).error_text(),
            resps.len() > 0 ==> (resps@.last() matches UIResponse::Error(e) && final(self).error_text() == Some(e@)),
    {
        let mut i: usize = 0;
        while i < resps.len()
            invariant
                i <= resps.len(),
                self.store == old(self).store,
                self.param == old(self).param,
                i == 0 ==> self.error_text == old(self).error_text,
                i > 0 ==> (resps@[i - 1] matches UIResponse::Error(e) && opt_text(self.error_text) == Some(e@)),
            decreases resps.len() - i,
        {
            match &resps[i] {
                UIResponse::Error(err) => {
                    self.error_text = Some(err.clone());
                },
            }
            i = i + 1;
        }
    }

    /// Starts with the store chosen.  The error is cleared; the local store
    /// without a file is refused with a message.
    pub fn start(&mut self) -> (r: Option<UIRequest>)
        ensures
            start_request(old(self).store(), old(self).param(), r),
            final(self).store() == old(self).store(),
            final(self).param() == old(self).param(),
            (old(self).store() == StoreKind::Local && old(self).param() is None)
                ==> final(self).error_text() == Some("db file or path is not specified"@),
            !(old(self).store() == StoreKind::Local && old(self).param() is None) ==> final(self).error_text() is None,
    {
        self.error_text = None;
        match self.store {
            StoreKind::Memory => Some(UIRequest::Start(StoreType::Memory, None)),
            StoreKind::Local => match &self.param {
                None => {
                    self.error_text = Some(String::from_str("db file or path is not specified"));
                    None
                },
                Some(p) => Some(UIRequest::Start(StoreType::Local(p.clone()), None)),
            },
            StoreKind::Grpc => {
                let url = match &self.param {
                    Some(p) => p.clone(),
                    None => String::from_str("http://127.0.0.1:8080"),
                };
                Some(UIRequest::Start(StoreType::Grpc(url), None))
            },
        }
    }

    /// Gives the default parameter of the kind chosen: `local_db`, the
    /// database file in the user's data directory, for the local store, and
    /// the local server address for the gRPC store.
    pub fn use_default(&mut self, local_db: Option<String>)
        requires
            old(self).store() == StoreKind::Local ==> local_db is Some,
        ensures
            final(self).store() == old(self).store(),
            final(self).error_text() == old(self).error_text(),
            final(self).param() == (match old(self).store() {
                StoreKind::Memory => old(self).param(),
                StoreKind::Local => opt_text(local_db),
                StoreKind::Grpc => Some(default_server()),
            }),
    {
        match self.store {
            StoreKind::Memory => {},
            StoreKind::Local => {
                self.param = local_db;
            },
            StoreKind::Grpc => {
                self.param = Some(String::from_str("http://127.0.0.1:8080"));
            },
        }
    }

    /// What the keys ask for, taken in this order: escape leaves, T, L and
    /// G choose the kind, D gives its default, Command-Enter starts.
    pub fn on_keys(&mut self, keys: StartKeys, local_db: Option<String>) -> (r: Vec<UIRequest>)
        requires
            keys.default && (if keys.grpc { false } else if keys.local { true } else if keys.memory { false }
                else { old(self).store() == StoreKind::Local }) ==> local_db is Some,
        ensures
            final(self).store() == (if keys.grpc { StoreKind::Grpc } else if keys.local { StoreKind::Local }
                else if keys.memory { StoreKind::Memory } else { old(self).store() }),
            final(self).param() == (if !keys.default { old(self).param() } else {
                match final(self).store() {
                    StoreKind::Memory => old(self).param(),
                    StoreKind::Local => opt_text(local_db),
                    StoreKind::Grpc => Some(default_server()),
                }
            }),
            final(self).error_text() == (if !keys.start { old(self).error_text() }
                else if final(self).store() == StoreKind::Local && final(self).param() is None {
                    Some("db file or path is not specified"@)
                } else { None::<Seq<char>> }),
            keys.escape ==> r.len() >= 1 && r@[0] is Close,
            r.len() == (if keys.escape { 1int } else { 0int })
                + (if keys.start && !(final(self).store() == StoreKind::Local && final(self).param() is None) { 1int } else { 0int }),
            keys.start && !(final(self).store() == StoreKind::Local && final(self).param() is None)
                ==> start_request(final(self).store(), final(self).param(), Some(r@.last())),
    {
        let mut reqs: Vec<UIRequest> = Vec::new();
        if keys.escape {
            reqs.push(UIRequest::Close);
        }
        if keys.memory {
            self.store = StoreKind::Memory;
        }
        if keys.local {
            self.store = StoreKind::Local;
        }
        if keys.grpc {
            self.store = StoreKind::Grpc;
        }
        if keys.default {
            self.use_default(local_db);
        }
        if keys.start {
            match self.start() {
                Some(req) => reqs.push(req),
                None => {},
            }
        }
        reqs
    }
}

} // verus!
