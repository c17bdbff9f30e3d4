//! The common abstraction over the tools: process errors, modes, the `Tool`
//! trait, and the registry the user interface dispatches through.

use vstd::prelude::*;
use crate::base64_tool::Base64Tool;
use crate::json_tool::JsonTool;
use crate::textops::{str_eq, is_blank, trim_spec};
use crate::timestamp_tool::TimestampTool;

verus! {

/// What went wrong while a tool processed its input.
#[derive(Clone, Copy, PartialEq, Eq, Structural, Debug)]
pub enum ProcessErrorKind {
    Parse,
    Encode,
    Decode,
    Unsupported,
    Other,
}

/// An error a tool reports: its kind and a human-readable message.
#[derive(Clone, Debug)]
pub struct ProcessError {
    pub kind: ProcessErrorKind,
    pub message: String,
}

/// What a tool returns: the converted text, or an error.
pub type ProcessResult = Result<String, ProcessError>;

/// One named behavior of a tool, as the interface offers it.
#[derive(Clone, Debug)]
pub struct Mode {
    pub id: &'static str,
    pub label: &'static str,
}

/// The shared shape of a tool: an identifier for dispatch, a display name, a
/// list of modes, a default mode, and the conversion itself.
pub trait Tool: Sized {
    /// The tool's identifier.
    spec fn spec_id(&self) -> Seq<char>;

    /// The tool's display name.
    spec fn spec_name(&self) -> Seq<char>;

    /// Identifier and label of each mode, in interface order.
    spec fn spec_modes(&self) -> Seq<(Seq<char>, Seq<char>)>;

    /// The identifier of the mode selected at start.
    spec fn spec_default_mode(&self) -> Seq<char>;

    /// What `process` may return for a mode and an input.
    spec fn process_spec(&self, mode: Seq<char>, input: Seq<char>, r: ProcessResult) -> bool;

    fn id(&self) -> (r: &'static str)
        ensures
            r@ == self.spec_id(),
    ;

    fn name(&self) -> (r: &'static str)
        ensures
            r@ == self.spec_name(),
    ;

    fn modes(&self) -> (r: Vec<Mode>)
        ensures
            r@.len() == self.spec_modes().len(),
            forall|i: int|
                0 <= i < r@.len() ==> (#[trigger] r@[i]).id@ == self.spec_modes()[i].0
                    && r@[i].label@ == self.spec_modes()[i].1,
    ;

    fn default_mode(&self) -> (r: &'static str)
        ensures
            r@ == self.spec_default_mode(),
    ;

    fn process(&self, mode_id: &str, input: &str) -> (r: ProcessResult)
        ensures
            self.process_spec(mode_id@, input@, r),
    ;
}

/// One of the registered tools, dispatched by variant.
#[derive(Clone, Copy)]
pub enum AnyTool {
    Base64(Base64Tool),
    Json(JsonTool),
    Timestamp(TimestampTool),
}

impl Tool for AnyTool {
    open spec fn spec_id(&self) -> Seq<char> {
        match self {
            AnyTool::Base64(t) => t.spec_id(),
            AnyTool::Json(t) => t.spec_id(),
            AnyTool::Timestamp(t) => t.spec_id(),
        }
    }

    open spec fn spec_name(&self) -> Seq<char> {
        match self {
            AnyTool::Base64(t) => t.spec_name(),
            AnyTool::Json(t) => t.spec_name(),
            AnyTool::Timestamp(t) => t.spec_name(),
        }
    }

    open spec fn spec_modes(&self) -> Seq<(Seq<char>, Seq<char>)> {
        match self {
            AnyTool::Base64(t) => t.spec_modes(),
            AnyTool::Json(t) => t.spec_modes(),
            AnyTool::Timestamp(t) => t.spec_modes(),
        }
    }

    open spec fn spec_default_mode(&self) -> Seq<char> {
        match self {
            AnyTool::Base64(t) => t.spec_default_mode(),
            AnyTool::Json(t) => t.spec_default_mode(),
            AnyTool::Timestamp(t) => t.spec_default_mode(),
        }
    }

    open spec fn process_spec(&self, mode: Seq<char>, input: Seq<char>, r: ProcessResult) -> bool {
        match self {
            AnyTool::Base64(t) => t.process_spec(mode, input, r),
            AnyTool::Json(t) => t.process_spec(mode, input, r),
            AnyTool::Timestamp(t) => t.process_spec(mode, input, r),
        }
    }

    fn id(&self) -> (r: &'static str) {
        match self {
            AnyTool::Base64(t) => t.id(),
            AnyTool::Json(t) => t.id(),
            AnyTool::Timestamp(t) => t.id(),
        }
    }

    fn name(&self) -> (r: &'static str) {
        match self {
            AnyTool::Base64(t) => t.name(),
            AnyTool::Json(t) => t.name(),
            AnyTool::Timestamp(t) => t.name(),
        }
    }

    fn modes(&self) -> (r: Vec<Mode>) {
        match self {
            AnyTool::Base64(t) => t.modes(),
            AnyTool::Json(t) => t.modes(),
            AnyTool::Timestamp(t) => t.modes(),
        }
    }

    fn default_mode(&self) -> (r: &'static str) {
        match self {
            AnyTool::Base64(t) => t.default_mode(),
            AnyTool::Json(t) => t.default_mode(),
            AnyTool::Timestamp(t) => t.default_mode(),
        }
    }

    fn process(&self, mode_id: &str, input: &str) -> (r: ProcessResult) {
        match self {
            AnyTool::Base64(t) => t.process(mode_id, input),
            AnyTool::Json(t) => t.process(mode_id, input),
            AnyTool::Timestamp(t) => t.process(mode_id, input),
        }
    }
}

/// The first tool of `s` whose identifier is `id`, if any.
pub open spec fn find_tool(s: Seq<AnyTool>, id: Seq<char>) -> Option<AnyTool>
    decreases s.len(),
{
    if s.len() == 0 {
        None
    } else if s[0].spec_id() == id {
        Some(s[0])
    } else {
        find_tool(s.drop_first(), id)
    }
}

/// The list of available tools, looked up by identifier for dispatch from
/// the interface.
pub struct Registry {
    inner: Vec<AnyTool>,
}

impl View for Registry {
    type V = Seq<AnyTool>;

    closed spec fn view(&self) -> Seq<AnyTool> {
        self.inner@
    }
}

impl Registry {
    /// An empty registry.
    pub fn new() -> (r: Self)
        ensures
            r@ == Seq::<AnyTool>::empty(),
    {
        let r = Registry { inner: Vec::new() };
        proof {
            assert(r@ =~= Seq::<AnyTool>::empty());
        }
        r
    }

    /// Appends a tool.
    pub fn register(&mut self, tool: AnyTool)
        ensures
            final(self)@ == old(self)@.push(tool),
    {
        self.inner.push(tool);
    }

    /// The registered tools, in registration order.
    pub fn tools(&self) -> (r: &Vec<AnyTool>)
        ensures
            r@ == self@,
    {
        &self.inner
    }

    /// The first registered tool with the identifier, if any.
    pub fn by_id(&self, id: &str) -> (r: Option<AnyTool>)
        ensures
            r == find_tool(self@, id@),
    {
        let n = self.inner.len();
        let mut i: usize = 0;
        proof {
            assert(self.inner@.skip(0) =~= self.inner@);
        }
        while i < n
            invariant
                n == self.inner@.len(),
                0 <= i <= n,
                find_tool(self@, id@) == find_tool(self.inner@.skip(i as int), id@),
                self@ == self.inner@,
            decreases n - i,
        {
            let t = self.inner[i];
            proof {
                assert(self.inner@.skip(i as int)[0] == self.inner@[i as int]);
                assert(self.inner@.skip(i as int).drop_first() =~= self.inner@.skip(i + 1));
            }
            if str_eq(t.id(), id) {
                return Some(t);
            }
            i += 1;
        }
        proof {
            assert(self.inner@.skip(n as int) =~= Seq::<AnyTool>::empty());
        }
        None
    }
}

/// Recomputes the two output signals of the main area: blank input clears
/// both panes, a known tool runs on the input and fills one pane or the
/// other, and an unknown tool identifier leaves both panes as they were.
pub fn evaluate(
    reg: &Registry,
    tool_id: &str,
    mode_id: &str,
    input: &str,
    output: &mut String,
    error: &mut String,
)
    ensures
        trim_spec(input@).len() == 0 ==> final(output)@ == Seq::<char>::empty() && final(error)@
            == Seq::<char>::empty(),
        trim_spec(input@).len() > 0 ==> match find_tool(reg@, tool_id@) {
            None => final(output)@ == old(output)@ && final(error)@ == old(error)@,
            Some(t) => exists|r: ProcessResult|
                {
                    &&& #[trigger] t.process_spec(mode_id@, input@, r)
                    &&& match r {
                        Ok(s) => final(output)@ == s@ && final(error)@ == Seq::<char>::empty(),
                        Err(e) => final(output)@ == Seq::<char>::empty() && final(error)@
                            == e.message@,
                    }
                },
        },
{
    if is_blank(input) {
        *output = String::new();
        *error = String::new();
        return;
    }
    match reg.by_id(tool_id) {
        Some(tool) => {
            match tool.process(mode_id, input) {
                Ok(s) => {
                    let ghost r: ProcessResult = Ok(s);
                    *output = s;
                    *error = String::new();
                    proof {
                        assert(tool.process_spec(mode_id@, input@, r));
                    }
                },
                Err(e) => {
                    let ghost r: ProcessResult = Err(e);
                    *output = String::new();
                    *error = e.message;
                    proof {
                        assert(tool.process_spec(mode_id@, input@, r));
                    }
                },
            }
        },
        None => {},
    }
}

} // verus!
