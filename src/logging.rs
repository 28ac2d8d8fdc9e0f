//! Which diagnostic logs are forwarded to the remote collector.
use vstd::prelude::*;
use vstd::string::*;

use crate::text::{lower_of, same_text, to_lowercase};

verus! {

pub open spec fn has_text(v: Seq<String>, x: Seq<char>) -> bool {
    exists|i: int| 0 <= i < v.len() && (#[trigger] v[i])@ == x
}

pub open spec fn distinct_texts(v: Seq<String>) -> bool {
    forall|i: int, j: int| 0 <= i < j < v.len() ==> (#[trigger] v[i])@ != (#[trigger] v[j])@
}

/// Remote logging settings: on or off, whether debug logs may go, and the
/// allowed levels (lower case, each once).
#[derive(Debug, Clone)]
pub struct RemoteLoggingConfig {
    enabled: bool,
    debug_mode: bool,
    allowed_levels: Vec<String>,
}

impl RemoteLoggingConfig {
    pub closed spec fn enabled(&self) -> bool {
        self.enabled
    }

    pub closed spec fn debug_mode(&self) -> bool {
        self.debug_mode
    }

    pub closed spec fn levels(&self) -> Seq<String> {
        self.allowed_levels@
    }

    pub open spec fn wf(&self) -> bool {
        distinct_texts(self.levels())
    }

    /// Off, without debug, allowing only errors.
    pub fn new() -> (r: Self)
        ensures
            r.wf(),
            !r.enabled(),
            !r.debug_mode(),
            r.levels().len() == 1,
            r.levels()[0]@ == "error"@,
    {
        let mut levels: Vec<String> = Vec::new();
        levels.push(String::from_str("error"));
        RemoteLoggingConfig { enabled: false, debug_mode: false, allowed_levels: levels }
    }

    /// Replaces the settings; the allowed levels become the lower-cased
    /// given ones, each kept once.
    pub fn update_remote_logging_config(
        &mut self,
        enabled: bool,
        debug_mode: bool,
        allowed_levels: Vec<String>,
    )
        ensures
            final(self).wf(),
            final(self).enabled() == enabled,
            final(self).debug_mode() == debug_mode,
            forall|x: Seq<char>|
                has_text(final(self).levels(), x) <==> exists|i: int|
                    0 <= i < allowed_levels@.len() && x == lower_of(
                        (#[trigger] allowed_levels@[i])@,
                    ),
    {
        let mut levels: Vec<String> = Vec::new();
        let n = allowed_levels.len();
        let mut i: usize = 0;
        while i < n
            invariant
                n == allowed_levels@.len(),
                0 <= i <= n,
                distinct_texts(levels@),
                forall|x: Seq<char>|
                    has_text(levels@, x) <==> exists|k: int|
                        0 <= k < i && x == lower_of((#[trigger] allowed_levels@[k])@),
            decreases n - i,
        {
            let l = to_lowercase(allowed_levels[i].as_str());
            let mut found = false;
            let mut j: usize = 0;
            while j < levels.len()
                invariant
                    0 <= j <= levels@.len(),
                    found == exists|k: int| 0 <= k < j && (#[trigger] levels@[k])@ == l@,
                decreases levels@.len() - j,
            {
                if same_text(levels[j].as_str(), l.as_str()) {
                    found = true;
                }
                j = j + 1;
            }
            let ghost before = levels@;
            if !found {
                levels.push(l);
                proof {
                    assert forall|a: int, b: int| 0 <= a < b < levels@.len() implies (
                    #[trigger] levels@[a])@ != (#[trigger] levels@[b])@ by {
                        if b == levels@.len() - 1 {
                            assert(levels@[a] == before[a]);
                        }
                    }
                }
            }
            proof {
                assert forall|x: Seq<char>| has_text(levels@, x) <==> exists|k: int|
                    0 <= k < i + 1 && x == lower_of((#[trigger] allowed_levels@[k])@) by {
                    if has_text(levels@, x) {
                        let q = choose|q: int| 0 <= q < levels@.len() && (#[trigger] levels@[q])@ == x;
                        if q < before.len() {
                            assert(before[q] == levels@[q]);
                            assert(has_text(before, x));
                        } else {
                            assert(x == lower_of(allowed_levels@[i as int]@));
                        }
                    }
                    if exists|k: int| 0 <= k < i + 1 && x == lower_of((#[trigger] allowed_levels@[k])@) {
                        let k = choose|k: int| 0 <= k < i + 1 && x == lower_of((#[trigger] allowed_levels@[k])@);
                        if k < i {
                            assert(has_text(before, x));
                            let q = choose|q: int| 0 <= q < before.len() && (#[trigger] before[q])@ == x;
                            assert(levels@[q] == before[q]);
                        } else if found {
                            let q = choose|q: int| 0 <= q < before.len() && (#[trigger] before[q])@ == l@;
                            assert(levels@[q] == before[q]);
                        } else {
                            assert(levels@[before.len() as int]@ == x);
                        }
                    }
                }
            }
            i = i + 1;
        }
        self.enabled = enabled;
        self.debug_mode = debug_mode;
        self.allowed_levels = levels;
    }

    /// Whether a log of `level` is forwarded: remote logging is on, debug
    /// logs only in debug mode, and the lower-cased level is allowed.
    pub fn should_send_remote_log(&self, level: &str) -> (r: bool)
        ensures
            r == (self.enabled() && !(level@ == "debug"@ && !self.debug_mode()) && has_text(
                self.levels(),
                lower_of(level@),
            )),
    {
        if !self.enabled {
            return false;
        }
        if same_text(level, "debug") && !self.debug_mode {
            return false;
        }
        let l = to_lowercase(level);
        let mut j: usize = 0;
        while j < self.allowed_levels.len()
            invariant
                0 <= j <= self.levels().len(),
                l@ == lower_of(level@),
                self.enabled(),
                !(level@ == "debug"@ && !self.debug_mode()),
                forall|k: int| 0 <= k < j ==> (#[trigger] self.levels()[k])@ != l@,
            decreases self.levels().len() - j,
        {
            if same_text(self.allowed_levels[j].as_str(), l.as_str()) {
                proof {
                    assert((self.levels()[j as int])@ == lower_of(level@));
                }
                return true;
            }
            j = j + 1;
        }
        false
    }

    /// Whether remote logging is on, whether debug logs may go, and the
    /// allowed levels.
    pub fn get_remote_logging_config(&self) -> (r: (bool, bool, Vec<String>))
        ensures
            r.0 == self.enabled(),
            r.1 == self.debug_mode(),
            r.2@ == self.levels(),
    {
        let mut out: Vec<String> = Vec::new();
        let mut j: usize = 0;
        while j < self.allowed_levels.len()
            invariant
                0 <= j <= self.levels().len(),
                out@ == self.levels().take(j as int),
            decreases self.levels().len() - j,
        {
            out.push(self.allowed_levels[j].clone());
            proof {
                assert(self.levels().take(j as int + 1) =~= self.levels().take(j as int).push(
                    self.levels()[j as int],
                ));
            }
            j = j + 1;
        }
        proof {
            assert(self.levels().take(j as int) =~= self.levels());
        }
        (self.enabled, self.debug_mode, out)
    }
}

} // verus!
