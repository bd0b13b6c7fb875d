//! Fatal configuration errors with a chained cause trail, rendered as an
//! `error:` line followed by indented `because:` lines.

use vstd::prelude::*;
use vstd::string::StringExecFns;

verus! {

/// A configuration-level error: a message followed by the messages of each
/// wrapped cause, outermost first. Such an error aborts the invocation
/// before any job starts.
pub struct ConfigError {
    pub messages: Vec<String>,
}

/// The rendered diagnostic for a message chain: the first message under
/// `error:`, every later one under an indented `because:`.
pub open spec fn rendered_chain(ms: Seq<Seq<char>>) -> Seq<Seq<char>> {
    Seq::new(
        ms.len(),
        |i: int|
            if i == 0 {
                "error: "@ + ms[0]
            } else {
                "  because: "@ + ms[i]
            },
    )
}

impl ConfigError {
    /// The chain of messages, outermost first.
    pub open spec fn chain(&self) -> Seq<Seq<char>> {
        self.messages@.map_values(|m: String| m@)
    }

    /// A well-formed error carries at least its own message.
    pub open spec fn wf(&self) -> bool {
        self.messages@.len() >= 1
    }

    /// An error without a cause.
    pub fn new(message: String) -> (r: ConfigError)
        ensures
            r.wf(),
            r.chain() == seq![message@],
    {
        let mut messages: Vec<String> = Vec::new();
        messages.push(message);
        let r = ConfigError { messages };
        proof {
            assert(r.chain() =~= seq![message@]);
        }
        r
    }

    /// An error wrapping a cause: the new message comes first, the cause's
    /// chain follows.
    pub fn wrapping(message: String, cause: ConfigError) -> (r: ConfigError)
        ensures
            r.wf(),
            r.chain() == seq![message@] + cause.chain(),
    {
        let mut messages: Vec<String> = Vec::new();
        let ghost m0 = message@;
        messages.push(message);
        let n: usize = cause.messages.len();
        let mut i: usize = 0;
        while i < n
            invariant
                i <= n,
                n == cause.messages@.len(),
                messages@.len() == i + 1,
                messages@[0]@ == m0,
                forall|j: int| 1 <= j <= i ==> messages@[j]@ == cause.messages@[j - 1]@,
            decreases n - i,
        {
            messages.push(cause.messages[i].clone());
            i = i + 1;
        }
        let r = ConfigError { messages };
        proof {
            assert(r.chain() =~= seq![m0] + cause.chain());
        }
        r
    }

    /// The diagnostic lines for this error, ready to print in order.
    pub fn render_lines(&self) -> (r: Vec<String>)
        requires
            self.wf(),
        ensures
            r@.map_values(|m: String| m@) == rendered_chain(self.chain()),
    {
        let mut lines: Vec<String> = Vec::new();
        let n: usize = self.messages.len();
        let mut i: usize = 0;
        while i < n
            invariant
                i <= n,
                n == self.messages@.len(),
                lines@.len() == i,
                forall|j: int|
                    0 <= j < i ==> lines@[j]@ == rendered_chain(self.chain())[j],
            decreases n - i,
        {
            let line = if i == 0 {
                String::from_str("error: ").concat(self.messages[i].as_str())
            } else {
                String::from_str("  because: ").concat(self.messages[i].as_str())
            };
            lines.push(line);
            i = i + 1;
        }
        proof {
            assert(lines@.map_values(|m: String| m@) =~= rendered_chain(self.chain()));
        }
        lines
    }
}

} // verus!
