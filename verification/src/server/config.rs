//! The configuration of the server.

use vstd::prelude::*;

use crate::bstore::StoreType;
use crate::text::{concat, str_equal};

verus! {

/// The front through which the server is reached.
#[derive(Clone, Copy, Debug, PartialEq, Eq)]
pub enum FrontType {
    Http,
    Grpc,
}

/// The store the server keeps its data in: its type by name, a path for
/// file-backed stores, and whether to create the file.
#[derive(Clone, Debug, PartialEq, Eq)]
pub struct StoreConfig {
    pub store_type: String,
    pub path: Option<String>,
    pub create: Option<bool>,
}

/// The configuration of the server.
#[derive(Clone, Debug, PartialEq, Eq)]
pub struct Config {
    pub listen: String,
    pub front_type: FrontType,
    pub store: StoreConfig,
}

impl Default for Config {
    fn default() -> (r: Self)
        ensures
            r.listen@ == "localhost:8080"@,
            r.front_type == FrontType::Grpc,
            r.store.store_type@ == "Memory"@,
            r.store.path is None,
            r.store.create is None,
    {
        Config {
            listen: String::from_str("localhost:8080"),
            front_type: FrontType::Grpc,
            store: StoreConfig { store_type: String::from_str("Memory"), path: None, create: None },
        }
    }
}

/// The path starts with the home directory shorthand "~/".
pub open spec fn starts_with_home(path: Seq<char>) -> bool {
    path.len() >= 2 && path[0] == '~' && path[1] == '/'
}

/// A path with a leading "~/" put under the home directory `home`, when
/// it is known.
pub open spec fn spec_expand_path(path: Seq<char>, home: Option<Seq<char>>) -> Seq<char> {
    if starts_with_home(path) && home is Some {
        home.unwrap() + path.skip(1)
    } else {
        path
    }
}

/// The view of an optional string slice.
pub open spec fn opt_str_slice_view(s: Option<&str>) -> Option<Seq<char>> {
    match s {
        Some(s) => Some(s@),
        None => None,
    }
}

impl StoreConfig {
    /// A path with a leading "~/" put under the home directory, when the
    /// value of `HOME` is known.
    pub fn expand_path(path: &str, home: Option<&str>) -> (r: String)
        ensures
            r@ == spec_expand_path(path@, opt_str_slice_view(home)),
    {
        let n = path.unicode_len();
        if n >= 2 && path.get_char(0) == '~' && path.get_char(1) == '/' {
            match home {
                Some(h) => {
                    let rest = path.substring_char(1, n);
                    assert(rest@ =~= path@.skip(1));
                    concat(h, rest)
                },
                None => String::from_str(path),
            }
        } else {
            String::from_str(path)
        }
    }

    /// The store this configuration names; `home` is the value of `HOME`.
    pub fn to_store_type(&self, home: Option<&str>) -> (r: Result<StoreType, String>)
        ensures
            self.store_type@ == "Memory"@ ==> r == Ok::<StoreType, String>(StoreType::Memory),
            self.store_type@ == "Local"@ ==> match self.path {
                None => (r matches Err(e) && e@ == "Local store requires path parameter"@),
                Some(p) => (r matches Ok(StoreType::Local(q)) && q@ == spec_expand_path(p@, opt_str_slice_view(home))),
            },
            self.store_type@ != "Memory"@ && self.store_type@ != "Local"@
                ==> (r matches Err(e) && e@ == "Unknown store type: "@ + self.store_type@),
    {
        proof {
            reveal_strlit("Memory");
            reveal_strlit("Local");
            assert("Memory"@.len() != "Local"@.len());
        }
        if str_equal(self.store_type.as_str(), "Memory") {
            Ok(StoreType::Memory)
        } else if str_equal(self.store_type.as_str(), "Local") {
            match &self.path {
                None => Err(String::from_str("Local store requires path parameter")),
                Some(p) => Ok(StoreType::Local(Self::expand_path(p.as_str(), home))),
            }
        } else {
            Err(concat("Unknown store type: ", self.store_type.as_str()))
        }
    }
}

} // verus!
