//! Editor-facing decisions: where the tool is, how its language server is
//! started, the settings handed to it, and how completions and symbols are
//! labelled.
use vstd::prelude::*;
use vstd::string::{StringExecFns, StringSliceAdditionalSpecFns};

use crate::tool::{push_arg, ToolInvocation};

verus! {

/// Remembers the tool path once a lookup has found it, until invalidated.
pub struct ToolPathCache {
    cached: Option<String>,
}

impl ToolPathCache {
    /// The remembered path.
    pub closed spec fn remembered(&self) -> Option<Seq<char>> {
        match self.cached {
            Some(p) => Some(p@),
            None => None,
        }
    }

    /// A cache that remembers nothing yet.
    pub fn new() -> (r: Self)
        ensures
            r.remembered() is None,
    {
        ToolPathCache { cached: None }
    }

    /// The remembered path, if any; a lookup is needed only where this is
    /// `None`.
    pub fn cached(&self) -> (r: Option<String>)
        ensures
            r is None <==> self.remembered() is None,
            r is Some ==> self.remembered() == Some(r->Some_0@),
    {
        match &self.cached {
            Some(p) => Some(p.clone()),
            None => None,
        }
    }

    /// Records the outcome of a lookup: a found path is remembered and
    /// returned; a failed lookup leaves the cache as it was and returns `None`.
    pub fn remember(&mut self, found: Option<String>) -> (r: Option<String>)
        ensures
            found is None ==> r is None && final(self).remembered() == old(self).remembered(),
            found is Some ==> r is Some && r->Some_0@ == found->Some_0@
                && final(self).remembered() == Some(found->Some_0@),
    {
        match found {
            Some(p) => {
                self.cached = Some(p.clone());
                Some(p)
            },
            None => None,
        }
    }

    /// Forgets the remembered path, so that the next use looks it up again.
    pub fn invalidate(&mut self)
        ensures
            final(self).remembered() is None,
    {
        self.cached = None;
    }
}

/// Arguments that start the tool's language server.
pub open spec fn language_server_args() -> Seq<Seq<char>> {
    seq!["execute"@, "language-server"@, "--check-errors=ON_CHANGE"@]
}

/// What the user is told when the tool cannot be found.
pub open spec fn cli_not_found_message() -> Seq<char> {
    CLI_NOT_FOUND@
}

/// The installation hint shown when the tool is not on the search path.
pub const CLI_NOT_FOUND: &'static str = "CodeQL CLI not found in PATH.\nPlease install CodeQL CLI:\n  • Homebrew: brew install codeql\n  • Download: https://github.com/github/codeql-action/releases\nThen restart Zed to detect the installation.";

/// The invocation that starts the language server through the tool at
/// `cli_path`, or the installation hint where no tool was found.
pub fn language_server_invocation(cli_path: Option<String>) -> (r: Result<ToolInvocation, String>)
    ensures
        cli_path is None ==> r is Err && r->Err_0@ == cli_not_found_message(),
        cli_path is Some ==> r is Ok && r->Ok_0.program@ == cli_path->Some_0@
            && r->Ok_0.args.deep_view() == language_server_args() && r->Ok_0.working_dir is None,
{
    match cli_path {
        None => Err(String::from_str(CLI_NOT_FOUND)),
        Some(path) => {
            let mut args: Vec<String> = Vec::new();
            push_arg(&mut args, "execute");
            push_arg(&mut args, "language-server");
            push_arg(&mut args, "--check-errors=ON_CHANGE");
            assert(args.deep_view() =~= language_server_args());
            Ok(ToolInvocation { program: path, args, working_dir: None })
        },
    }
}

/// Resource settings for one kind of evaluation run.
#[derive(Debug, Clone)]
pub struct RunSettings {
    pub number_of_threads: u32,
    pub save_cache: bool,
    /// In MB.
    pub cache_size: u32,
    /// In seconds.
    pub timeout: u32,
    /// In MB.
    pub memory: u32,
    pub debug: Option<bool>,
    pub custom_log_directory: String,
}

/// The settings handed to the language server.
#[derive(Debug, Clone)]
pub struct LanguageServerSettings {
    pub executable_path: Option<String>,
    pub running_queries: RunSettings,
    pub running_tests: RunSettings,
}

/// Conservative defaults for query runs: 2 threads, no saved cache, a
/// 1024 MB cache, 600 s, 1024 MB of memory, no debugging, default log
/// directory.
pub open spec fn is_query_defaults(s: RunSettings) -> bool {
    &&& s.number_of_threads == 2
    &&& !s.save_cache
    &&& s.cache_size == 1024
    &&& s.timeout == 600
    &&& s.memory == 1024
    &&& s.debug == Some(false)
    &&& s.custom_log_directory@ == Seq::<char>::empty()
}

/// Defaults for test runs: 1 thread, no saved cache, a 512 MB cache, 300 s,
/// 512 MB of memory, debugging left unset, default log directory.
pub open spec fn is_test_defaults(s: RunSettings) -> bool {
    &&& s.number_of_threads == 1
    &&& !s.save_cache
    &&& s.cache_size == 512
    &&& s.timeout == 300
    &&& s.memory == 512
    &&& s.debug is None
    &&& s.custom_log_directory@ == Seq::<char>::empty()
}

impl RunSettings {
    /// The defaults for query runs.
    pub fn for_queries() -> (r: Self)
        ensures
            is_query_defaults(r),
    {
        RunSettings {
            number_of_threads: 2,
            save_cache: false,
            cache_size: 1024,
            timeout: 600,
            memory: 1024,
            debug: Some(false),
            custom_log_directory: String::new(),
        }
    }

    /// The defaults for test runs.
    pub fn for_tests() -> (r: Self)
        ensures
            is_test_defaults(r),
    {
        RunSettings {
            number_of_threads: 1,
            save_cache: false,
            cache_size: 512,
            timeout: 300,
            memory: 512,
            debug: None,
            custom_log_directory: String::new(),
        }
    }
}

impl LanguageServerSettings {
    /// The settings for a tool found at `executable_path`, if it was found.
    pub fn new(executable_path: Option<String>) -> (r: Self)
        ensures
            r.executable_path == executable_path,
            is_query_defaults(r.running_queries),
            is_test_defaults(r.running_tests),
    {
        LanguageServerSettings {
            executable_path,
            running_queries: RunSettings::for_queries(),
            running_tests: RunSettings::for_tests(),
        }
    }
}

/// The completion kinds that get a label of their own.
#[derive(Debug, Clone, Copy, PartialEq, Eq)]
pub enum CompletionKind {
    Class,
    Module,
    Method,
    Function,
    Keyword,
    Other,
}

/// The symbol kinds that get a label of their own.
#[derive(Debug, Clone, Copy, PartialEq, Eq)]
pub enum SymbolKind {
    Class,
    Interface,
    Method,
    Function,
    Module,
    Namespace,
    Other,
}

/// A piece of a label's text with its highlight name.
#[derive(Debug, Clone)]
pub struct LabelSpan {
    pub text: String,
    pub highlight: Option<String>,
}

/// A label: its code text, its highlighted spans, and the byte range
/// `0..filter_end` that filtering matches against.
#[derive(Debug, Clone)]
pub struct Label {
    pub code: String,
    pub spans: Vec<LabelSpan>,
    pub filter_end: usize,
}

pub open spec fn span_is(s: LabelSpan, text: Seq<char>, highlight: Option<Seq<char>>) -> bool {
    &&& s.text@ == text
    &&& match highlight {
        Some(h) => s.highlight is Some && s.highlight->Some_0@ == h,
        None => s.highlight is None,
    }
}

fn span(text: &str, highlight: Option<&str>) -> (r: LabelSpan)
    ensures
        span_is(
            r,
            text@,
            match highlight {
                Some(h) => Some(h@),
                None => None,
            },
        ),
{
    let highlight = match highlight {
        Some(h) => Some(String::from_str(h)),
        None => None,
    };
    LabelSpan { text: String::from_str(text), highlight }
}

/// The label of a completion item: a class or module is highlighted as a
/// type, a method or function is followed by `()` and highlighted as a
/// function, a keyword is highlighted as a keyword; other kinds, and items
/// without a kind, get no label.
pub fn completion_label(kind: Option<CompletionKind>, label: &str) -> (r: Option<Label>)
    ensures
        r is None <==> (kind is None || kind == Some(CompletionKind::Other)),
        r is Some ==> r->Some_0.filter_end == label.spec_bytes().len() as usize,
        kind == Some(CompletionKind::Class) || kind == Some(CompletionKind::Module) ==> {
            let l = r->Some_0;
            &&& l.code@ == label@
            &&& l.spans@.len() == 1
            &&& span_is(l.spans@[0], label@, Some("type"@))
        },
        kind == Some(CompletionKind::Method) || kind == Some(CompletionKind::Function) ==> {
            let l = r->Some_0;
            &&& l.code@ == label@ + "()"@
            &&& l.spans@.len() == 2
            &&& span_is(l.spans@[0], label@, Some("function"@))
            &&& span_is(l.spans@[1], "()"@, None)
        },
        kind == Some(CompletionKind::Keyword) ==> {
            let l = r->Some_0;
            &&& l.code@ == label@
            &&& l.spans@.len() == 1
            &&& span_is(l.spans@[0], label@, Some("keyword"@))
        },
{
    let kind = match kind {
        Some(k) => k,
        None => {
            return None;
        },
    };
    let filter_end = label.len();
    match kind {
        CompletionKind::Class | CompletionKind::Module => {
            let mut spans: Vec<LabelSpan> = Vec::new();
            spans.push(span(label, Some("type")));
            Some(Label { code: String::from_str(label), spans, filter_end })
        },
        CompletionKind::Method | CompletionKind::Function => {
            let mut spans: Vec<LabelSpan> = Vec::new();
            spans.push(span(label, Some("function")));
            spans.push(span("()", None));
            let code = String::from_str(label).concat("()");
            Some(Label { code, spans, filter_end })
        },
        CompletionKind::Keyword => {
            let mut spans: Vec<LabelSpan> = Vec::new();
            spans.push(span(label, Some("keyword")));
            Some(Label { code: String::from_str(label), spans, filter_end })
        },
        CompletionKind::Other => None,
    }
}

/// The code text and highlight of a symbol of the given kind.
pub open spec fn symbol_code(kind: SymbolKind, name: Seq<char>) -> (Seq<char>, Option<Seq<char>>) {
    match kind {
        SymbolKind::Class | SymbolKind::Interface => ("class "@ + name, Some("type"@)),
        SymbolKind::Method | SymbolKind::Function => (name + "()"@, Some("function"@)),
        SymbolKind::Module | SymbolKind::Namespace => ("module "@ + name, Some("module"@)),
        SymbolKind::Other => (name, None),
    }
}

/// The label of a workspace symbol: its code is decorated by kind (see
/// `symbol_code`), and its one span is the bare name with the kind's
/// highlight.
pub fn symbol_label(kind: SymbolKind, name: &str) -> (r: Label)
    ensures
        r.code@ == symbol_code(kind, name@).0,
        r.spans@.len() == 1,
        span_is(r.spans@[0], name@, symbol_code(kind, name@).1),
        r.filter_end == name.spec_bytes().len() as usize,
{
    let (code, highlight) = match kind {
        SymbolKind::Class | SymbolKind::Interface => (
            String::from_str("class ").concat(name),
            Some("type"),
        ),
        SymbolKind::Method | SymbolKind::Function => (
            String::from_str(name).concat("()"),
            Some("function"),
        ),
        SymbolKind::Module | SymbolKind::Namespace => (
            String::from_str("module ").concat(name),
            Some("module"),
        ),
        SymbolKind::Other => (String::from_str(name), None),
    };
    let mut spans: Vec<LabelSpan> = Vec::new();
    spans.push(span(name, highlight));
    Label { code, spans, filter_end: name.len() }
}

} // verus!
