//! Deprecated-configuration warnings, each given once per process.
use vstd::prelude::*;

use crate::text::{chars_of, push_text, string_of};
use crate::text_map::TextMap;

verus! {

/// The warning for a deprecated configuration path.
pub open spec fn deprecation_message_spec(old_path: Seq<char>, new_path: Seq<char>) -> Seq<
    char,
> {
    "detected deprecated translation config "@ + old_path + "; please migrate to "@ + new_path
        + ". The legacy and new configs cannot coexist in the same scope."@
}

/// The deprecated paths already warned about.
pub struct WarnedPaths {
    seen: TextMap,
}

impl WarnedPaths {
    pub closed spec fn wf(&self) -> bool {
        self.seen.wf()
    }

    pub closed spec fn seen_spec(&self) -> Set<Seq<char>> {
        self.seen.view_map().dom()
    }

    /// No path warned about yet.
    pub fn new() -> (r: Self)
        ensures
            r.wf(),
            r.seen_spec() == Set::<Seq<char>>::empty(),
    {
        WarnedPaths { seen: TextMap::new() }
    }

    /// The warning to log for `old_path`, the first time only.
    pub fn warn_deprecated_translation_config_once(&mut self, old_path: &str, new_path: &str) -> (r:
        Option<String>)
        requires
            old(self).wf(),
        ensures
            final(self).wf(),
            final(self).seen_spec() == old(self).seen_spec().insert(old_path@),
            old(self).seen_spec().contains(old_path@) ==> r is None,
            !old(self).seen_spec().contains(old_path@) ==> (r matches Some(m) && m@
                == deprecation_message_spec(old_path@, new_path@)),
    {
        let key = string_of(chars_of(old_path).as_slice());
        if self.seen.get(&key).is_some() {
            proof {
                assert(self.seen.view_map().insert(old_path@, Seq::<char>::empty()).dom()
                    =~= self.seen.view_map().dom().insert(old_path@));
            }
            self.seen.insert(key, String::new());
            return None;
        }
        self.seen.insert(key, String::new());
        proof {
            assert(old(self).seen.view_map().insert(old_path@, Seq::<char>::empty()).dom()
                =~= old(self).seen.view_map().dom().insert(old_path@));
        }
        let mut message = chars_of("detected deprecated translation config ");
        push_text(&mut message, old_path);
        push_text(&mut message, "; please migrate to ");
        push_text(&mut message, new_path);
        push_text(&mut message, ". The legacy and new configs cannot coexist in the same scope.");
        Some(string_of(message.as_slice()))
    }
}

} // verus!
