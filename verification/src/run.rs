//! Runner resolution: which shell command runs the chosen item. The
//! precedence is fixed: an explicit override wins, then the origin
//! collection's default runner, then the global default. Also the
//! matching of a menu program's output line back to a candidate.

use vstd::prelude::*;
use crate::config::{Config, ConfigView, find_collection};

verus! {

/// The view of an optional owned string.
pub open spec fn opt_str_view(o: Option<String>) -> Option<Seq<char>> {
    match o {
        Option::Some(s) => Option::Some(s@),
        Option::None => Option::None,
    }
}

/// The effective runner: the explicit override when given; else the
/// origin collection's default runner when the origin names a stored
/// collection that has one; else the global default.
pub open spec fn runner_spec(
    cfg: ConfigView,
    explicit: Option<Seq<char>>,
    origin: Option<Seq<char>>,
) -> Seq<char> {
    match explicit {
        Option::Some(r) => r,
        Option::None => match origin {
            Option::Some(name) => match find_collection(cfg.collections, name) {
                Option::Some(c) => match c.default_runner {
                    Option::Some(r) => r,
                    Option::None => cfg.default_runner,
                },
                Option::None => cfg.default_runner,
            },
            Option::None => cfg.default_runner,
        },
    }
}

impl Config {
    /// The shell command to run the chosen item with. Never fails:
    /// when nothing applies it yields the global default, even if
    /// that is the empty string.
    pub fn resolve_runner(&self, runner: &Option<String>, origin_collection: &Option<String>) -> (r:
        String)
        ensures
            r@ == runner_spec(self@, opt_str_view(*runner), opt_str_view(*origin_collection)),
    {
        match runner {
            Some(x) => x.clone(),
            None => match origin_collection {
                Some(name) => match self.get_collection(name.as_str()) {
                    Some(c) => match &c.default_runner {
                        Some(r) => r.clone(),
                        None => self.default_runner.clone(),
                    },
                    None => self.default_runner.clone(),
                },
                None => self.default_runner.clone(),
            },
        }
    }
}

/// Runner precedence, spelled out: an explicit override wins over
/// any origin and any configuration; with no override, an origin
/// collection's own default runner wins; with neither, the global
/// default stands.
pub proof fn lemma_runner_precedence(
    cfg: ConfigView,
    explicit: Option<Seq<char>>,
    origin: Option<Seq<char>>,
)
    ensures
        explicit matches Some(x) ==> runner_spec(cfg, explicit, origin) == x,
        explicit is None ==> (origin matches Some(name) ==> (find_collection(
            cfg.collections,
            name,
        ) matches Some(c) ==> (c.default_runner matches Some(r) ==> runner_spec(
            cfg,
            explicit,
            origin,
        ) == r))),
        explicit is None ==> (origin matches Some(name) ==> (find_collection(
            cfg.collections,
            name,
        ) matches Some(c) ==> (c.default_runner is None ==> runner_spec(cfg, explicit, origin)
            == cfg.default_runner))),
        explicit is None ==> (origin matches Some(name) ==> (find_collection(
            cfg.collections,
            name,
        ) is None ==> runner_spec(cfg, explicit, origin) == cfg.default_runner)),
        explicit is None && origin is None ==> runner_spec(cfg, explicit, origin)
            == cfg.default_runner,
{
}

/// The first display line equal to what the menu program printed, if
/// any; the caller treats `None` as free text typed by the user.
pub fn position_of(display: &Vec<String>, line: &str) -> (r: Option<usize>)
    ensures
        match r {
            Option::Some(i) => i < display@.len() && display@[i as int]@ == line@ && forall|k: int|
                0 <= k < i ==> (#[trigger] display@[k])@ != line@,
            Option::None => forall|k: int|
                0 <= k < display@.len() ==> (#[trigger] display@[k])@ != line@,
        },
{
    let wanted: String = line.to_owned();
    let n = display.len();
    let mut i: usize = 0;
    while i < n
        invariant
            n == display@.len(),
            i <= n,
            wanted@ == line@,
            forall|k: int| 0 <= k < i ==> (#[trigger] display@[k])@ != line@,
        decreases n - i,
    {
        if display[i] == wanted {
            return Some(i);
        }
        i += 1;
    }
    None
}

} // verus!
