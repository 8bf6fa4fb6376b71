//! The trusted boundary to the background fuzzy-matching engine.
//!
//! A [`Feed`] owns a `nucleo` matcher worker together with the auxiliary
//! matcher used to recover per-row highlight indices. The engine runs on its
//! own thread pool, so nothing can be promised about *which* candidates a
//! snapshot reports as matched at any moment; the contracts here state only
//! what holds of every outcome: which candidates exist, which query text the
//! pattern was last given, and the shape of a pulled snapshot. All session
//! logic that interprets the results is verified elsewhere against these
//! contracts.

use vstd::prelude::*;

use nucleo::Matcher;
use nucleo::Nucleo;
use nucleo::Utf32String;
use std::sync::Arc;

verus! {

/// The text the engine stores for a pushed candidate string.
///
/// Relies on `nucleo::Utf32String::from` and its `Display` impl: the stored
/// text is a function of the pushed characters alone (non-ASCII input is
/// reduced to one codepoint per grapheme cluster, which no short formula
/// states). The trusted methods below pin it down for ASCII input, where the
/// conversion is the identity.
pub uninterp spec fn engine_text(s: Seq<char>) -> Seq<char>;

/// The candidate texts pushed into the engine so far, in push order, as the
/// engine stores them.
pub uninterp spec fn feed_contents(f: Feed) -> Seq<Seq<char>>;

/// The query text most recently handed to the engine's pattern; empty for a
/// fresh engine.
pub uninterp spec fn feed_pattern(f: Feed) -> Seq<char>;

/// The background matching engine plus the matcher used to recover highlight
/// indices. Opaque to the verifier: every use goes through the trusted
/// methods below.
#[verifier::external_body]
pub struct Feed {
    engine: Nucleo<Utf32String>,
    highlight: Matcher,
}

impl Feed {
    /// Relies on `nucleo::Nucleo::new`: a fresh single-column engine holds no
    /// candidates and its pattern (`MultiPattern::new`) starts empty. The
    /// `match_paths` flag only selects the scoring configuration.
    #[verifier::external_body]
    pub fn new(match_paths: bool) -> (r: Feed)
        ensures
            feed_contents(r) == Seq::<Seq<char>>::empty(),
            feed_pattern(r) == Seq::<char>::empty(),
    {
        let mut config = nucleo::Config::DEFAULT;
        if match_paths {
            config = config.match_paths();
        }
        let engine: Nucleo<Utf32String> = Nucleo::new(config, Arc::new(|| {}), None, 1);
        let highlight = Matcher::new(nucleo::Config::DEFAULT.match_paths());
        Feed { engine, highlight }
    }

    /// Relies on `nucleo::Injector::push`: appends exactly one candidate to
    /// the engine's item list and touches nothing else. ASCII text is stored
    /// unchanged (`Utf32String::from` copies it byte for byte).
    #[verifier::external_body]
    pub fn push(&mut self, text: &String)
        ensures
            feed_contents(*final(self)) == feed_contents(*old(self)).push(engine_text(text@)),
            vstd::utf8::is_ascii_chars(text@)
                ==> feed_contents(*final(self)) == feed_contents(*old(self)).push(text@),
            feed_pattern(*final(self)) == feed_pattern(*old(self)),
    {
        let injector = self.engine.injector();
        injector.push(Utf32String::from(text.as_str()), |s, dst| s.clone_into(&mut dst[0]));
    }

    /// Relies on `nucleo::pattern::MultiPattern::reparse`, whose caller must
    /// promise that when `refinement` is set, the previously reparsed text is
    /// a prefix of the new text (a wrong promise may lose matches); the
    /// `requires` clause carries that obligation. Case folding and Unicode
    /// normalization follow the engine's "smart" policies.
    #[verifier::external_body]
    pub fn set_pattern(&mut self, query: &String, refinement: bool)
        requires
            refinement ==> feed_pattern(*old(self)).is_prefix_of(query@),
        ensures
            feed_contents(*final(self)) == feed_contents(*old(self)),
            feed_pattern(*final(self)) == query@,
    {
        self.engine.pattern.reparse(
            0,
            query.as_str(),
            nucleo::pattern::CaseMatching::Smart,
            nucleo::pattern::Normalization::Smart,
            refinement,
        );
    }

    /// Relies on `nucleo::Nucleo::tick`: gives the background workers a
    /// bounded slice of time and updates the engine's internal snapshot; the
    /// candidate list and the pattern text are untouched.
    #[verifier::external_body]
    pub fn advance(&mut self, timeout: u64)
        ensures
            feed_contents(*final(self)) == feed_contents(*old(self)),
            feed_pattern(*final(self)) == feed_pattern(*old(self)),
    {
        self.engine.tick(timeout);
    }

    /// Relies on `nucleo::Snapshot`: `matched_item_count` counts the matches
    /// (each standing for a distinct injected item, so at most `item_count`),
    /// and `matched_items(..n)` yields exactly `n` rows, best match first,
    /// each carrying the stored text of a pushed candidate. The index lists
    /// come from `nucleo::pattern::Pattern::indices`, which promises nothing
    /// about their order, multiplicity or range, so nothing is stated of
    /// them. Which candidates are matched depends on how far the background
    /// workers have come, so nothing is stated of that either.
    #[verifier::external_body]
    pub fn pull(&mut self, limit: u32) -> (r: (Vec<(String, Vec<u32>)>, usize, usize))
        ensures
            feed_contents(*final(self)) == feed_contents(*old(self)),
            feed_pattern(*final(self)) == feed_pattern(*old(self)),
            r.1 <= r.2,
            r.0@.len() == if r.1 <= limit as int { r.1 as int } else { limit as int },
            forall|i: int| 0 <= i < r.0@.len()
                ==> feed_contents(*old(self)).contains((#[trigger] r.0@[i]).0@),
    {
        let snap = self.engine.snapshot();
        let count = snap.matched_item_count();
        let n = count.min(limit);
        let mut rows = Vec::new();
        for item in snap.matched_items(..n) {
            let mut indices: Vec<u32> = Vec::new();
            self.engine.pattern.column_pattern(0).indices(
                item.data.slice(..),
                &mut self.highlight,
                &mut indices,
            );
            rows.push((item.data.to_string(), indices));
        }
        (rows, count as usize, snap.item_count() as usize)
    }
}

} // verus!
