//! Non-fatal problems met while extracting features from one file.
use vstd::prelude::*;

verus! {

/// A problem that made one extractor fall back to default values.
#[derive(Debug, Clone)]
pub struct ExtractionWarning {
    /// The extractor that reported it.
    pub module: &'static str,
    pub message: String,
}

/// The warnings gathered while one file is processed, in the order they came.
#[derive(Debug)]
pub struct WarningLog {
    pub warnings: Vec<ExtractionWarning>,
}

/// `[warn] <file> :: <module>: <message>`, the line printed for a warning.
pub open spec fn warning_line(filename: Seq<char>, w: ExtractionWarning) -> Seq<char> {
    "[warn] "@ + filename + " :: "@ + w.module@ + ": "@ + w.message@
}

/// (module, message) of a warning.
pub open spec fn warning_view(w: ExtractionWarning) -> (Seq<char>, Seq<char>) {
    (w.module@, w.message@)
}

impl WarningLog {
    /// An empty log.
    pub fn new() -> (r: Self)
        ensures
            r.warnings@.len() == 0,
    {
        WarningLog { warnings: Vec::new() }
    }

    /// Appends a warning of `module`.
    pub fn push(&mut self, module: &'static str, message: String)
        ensures
            final(self).warnings@ == old(self).warnings@.push(ExtractionWarning { module, message }),
    {
        self.warnings.push(ExtractionWarning { module, message });
    }

    pub fn is_empty(&self) -> (r: bool)
        ensures
            r == (self.warnings@.len() == 0),
    {
        self.warnings.len() == 0
    }

    /// The lines to print for the warnings of file `filename`, one per warning.
    pub fn lines(&self, filename: &str) -> (r: Vec<String>)
        ensures
            r@.len() == self.warnings@.len(),
            forall|i: int| 0 <= i < r@.len() ==> #[trigger] r@[i]@ == warning_line(filename@, self.warnings@[i]),
    {
        let mut out: Vec<String> = Vec::new();
        let mut i: usize = 0;
        while i < self.warnings.len()
            invariant
                i <= self.warnings@.len(),
                out@.len() == i,
                forall|k: int| 0 <= k < i ==> #[trigger] out@[k]@ == warning_line(filename@, self.warnings@[k]),
            decreases self.warnings@.len() - i,
        {
            let w = &self.warnings[i];
            let mut line = String::from_str("[warn] ");
            line.append(filename);
            line.append(" :: ");
            line.append(w.module);
            line.append(": ");
            line.append(w.message.as_str());
            out.push(line);
            i += 1;
        }
        out
    }
}

/// A log that starts empty, as `new` and `default` make it, and then has the
/// warnings `pushed` appended one `push` at a time (`states` are the
/// successive contents of its `warnings`) holds exactly those warnings, in
/// order: it is empty, as `is_empty` reports, exactly when nothing was pushed.
pub proof fn lemma_log_after_pushes(states: Seq<Seq<ExtractionWarning>>, pushed: Seq<ExtractionWarning>)
    requires
        states.len() == pushed.len() + 1,
        states[0].len() == 0,
        forall|i: int| 0 <= i < pushed.len() ==> states[i + 1] == states[i].push(#[trigger] pushed[i]),
    ensures
        states.last() == pushed,
        states.last().len() == pushed.len(),
        (states.last().len() == 0) <==> (pushed.len() == 0),
    decreases pushed.len(),
{
    if pushed.len() == 0 {
        assert(states.last() =~= pushed);
    } else {
        let k = pushed.len() - 1;
        assert forall|i: int| 0 <= i < pushed.drop_last().len() implies
            states.drop_last()[i + 1] == states.drop_last()[i].push(#[trigger] pushed.drop_last()[i]) by {
            assert(pushed.drop_last()[i] == pushed[i]);
            assert(states[i + 1] == states[i].push(pushed[i]));
        }
        lemma_log_after_pushes(states.drop_last(), pushed.drop_last());
        assert(states[k + 1] == states[k].push(pushed[k]));
        assert(states.last() =~= pushed);
    }
}

impl Default for WarningLog {
    fn default() -> (r: Self)
        ensures
            r.warnings@.len() == 0,
    {
        WarningLog { warnings: Vec::new() }
    }
}

} // verus!
