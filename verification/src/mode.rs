//! The retrieval mode of an account and the text it is persisted as.

use vstd::prelude::*;
use vstd::std_specs::convert::FromSpecImpl;
use crate::text::{opt_text, text_eq};

verus! {

/// Which retrieval protocol an account uses.
#[derive(Debug, Clone, Copy, PartialEq, Eq, Structural)]
pub enum ApiMode {
    /// Not decided yet: the granted scope or the first attempt decides.
    Auto,
    /// The mailbox protocol.
    Imap,
    /// The REST mail API.
    Graph,
}

/// The text of `"graph"`.
pub open spec fn graph_text() -> Seq<char> {
    seq!['g', 'r', 'a', 'p', 'h']
}

/// The text of `"imap"`.
pub open spec fn imap_text() -> Seq<char> {
    seq!['i', 'm', 'a', 'p']
}

/// The text of `"auto"`.
pub open spec fn auto_text() -> Seq<char> {
    seq!['a', 'u', 't', 'o']
}

/// The mode that a stored value stands for: `graph` and `imap` are
/// themselves, anything else and an absent value are `Auto`.
pub open spec fn stored_mode(value: Option<Seq<char>>) -> ApiMode {
    match value {
        Some(text) => if text == graph_text() {
            ApiMode::Graph
        } else if text == imap_text() {
            ApiMode::Imap
        } else {
            ApiMode::Auto
        },
        None => ApiMode::Auto,
    }
}

/// The value a mode is stored as.
pub open spec fn mode_text(mode: ApiMode) -> Seq<char> {
    match mode {
        ApiMode::Graph => graph_text(),
        ApiMode::Imap => imap_text(),
        ApiMode::Auto => auto_text(),
    }
}

/// The name a mode has in a summary.
pub open spec fn mode_name(mode: ApiMode) -> Seq<char> {
    match mode {
        ApiMode::Graph => seq!['G', 'r', 'a', 'p', 'h'],
        ApiMode::Imap => seq!['I', 'm', 'a', 'p'],
        ApiMode::Auto => seq!['A', 'u', 't', 'o'],
    }
}

impl Default for ApiMode {
    fn default() -> (r: Self)
        ensures
            r == ApiMode::Auto,
    {
        ApiMode::Auto
    }
}

impl From<Option<String>> for ApiMode {
    fn from(s: Option<String>) -> (r: Self) {
        proof {
            reveal_strlit("graph");
            reveal_strlit("imap");
        }
        match s {
            Some(text) => {
                if text_eq(text.as_str(), "graph") {
                    assert(text@ =~= graph_text());
                    ApiMode::Graph
                } else if text_eq(text.as_str(), "imap") {
                    assert(text@ =~= imap_text());
                    ApiMode::Imap
                } else {
                    assert("graph"@ =~= graph_text());
                    assert("imap"@ =~= imap_text());
                    ApiMode::Auto
                }
            },
            None => ApiMode::Auto,
        }
    }
}

impl FromSpecImpl<Option<String>> for ApiMode {
    open spec fn obeys_from_spec() -> bool {
        true
    }

    open spec fn from_spec(s: Option<String>) -> Self {
        stored_mode(opt_text(s))
    }
}

impl ApiMode {
    /// The value this mode is stored as: `graph`, `imap` or `auto`.
    pub fn as_str(self) -> (r: &'static str)
        ensures
            r@ == mode_text(self),
    {
        proof {
            reveal_strlit("graph");
            reveal_strlit("imap");
            reveal_strlit("auto");
        }
        let r = match self {
            ApiMode::Graph => "graph",
            ApiMode::Imap => "imap",
            ApiMode::Auto => "auto",
        };
        assert(r@ =~= mode_text(self));
        r
    }

    /// The name of this mode in a summary: `Graph`, `Imap` or `Auto`.
    pub fn name(self) -> (r: &'static str)
        ensures
            r@ == mode_name(self),
    {
        proof {
            reveal_strlit("Graph");
            reveal_strlit("Imap");
            reveal_strlit("Auto");
        }
        let r = match self {
            ApiMode::Graph => "Graph",
            ApiMode::Imap => "Imap",
            ApiMode::Auto => "Auto",
        };
        assert(r@ =~= mode_name(self));
        r
    }
}

/// A mode that is stored and read back is the same mode.
pub proof fn lemma_mode_round_trip(mode: ApiMode)
    ensures
        stored_mode(Some(mode_text(mode))) == mode,
{
    assert(graph_text().len() == 5);
    assert(imap_text().len() == 4);
    assert(auto_text()[0] == 'a');
    assert(imap_text()[0] == 'i');
}

} // verus!
