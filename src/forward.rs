use vstd::prelude::*;
use crate::locate::opt_view;

verus! {

/// How long after start the command-line file is announced, so that the
/// frontend has time to attach its listener.
pub const CLI_EMIT_DELAY_MS: u64 = 500;

/// The extensions of the files that are forwarded to the frontend.
pub open spec fn accepted_extension(e: Seq<char>) -> bool {
    e == "md"@ || e == "png"@
}

/// There is an extension, and it is one of the forwarded ones.
pub open spec fn has_accepted_extension(e: Option<String>) -> bool {
    e matches Some(x) && accepted_extension(x@)
}

/// The extension of a path as std reads it: the part of its file name after
/// the final `.`, or `None` where it has none.
pub uninterp spec fn extension_name(p: Seq<char>) -> Option<Seq<char>>;

/// `p` is a bare file name: it holds no separator or drive mark and is not
/// `..`, so std reads it the same way on every platform.
pub open spec fn is_bare_name(p: Seq<char>) -> bool {
    &&& !p.contains('/')
    &&& !p.contains('\\')
    &&& !p.contains(':')
    &&& p != ".."@
}

/// The position of the last `.` among the first `n` characters of `p`, or
/// -1 where there is none.
pub open spec fn last_dot(p: Seq<char>, n: int) -> int
    decreases n,
{
    if n <= 0 {
        -1
    } else if p[n - 1] == '.' {
        n - 1
    } else {
        last_dot(p, n - 1)
    }
}

/// The extension of a bare file name: `None` when no `.` follows its first
/// character, else the part after the final `.`.
pub open spec fn bare_extension(p: Seq<char>) -> Option<Seq<char>> {
    let k = last_dot(p, p.len() as int);
    if k < 1 {
        None
    } else {
        Some(p.subrange(k + 1, p.len() as int))
    }
}

/// No `.` stands in `p` from `from` up to `n`, so the last `.` before `n` is
/// the last one before `from`.
proof fn lemma_last_dot_skips(p: Seq<char>, from: int, n: int)
    requires
        0 <= from <= n <= p.len(),
        forall|i: int| from <= i < n ==> p[i] != '.',
    ensures
        last_dot(p, n) == last_dot(p, from),
    decreases n - from,
{
    if n > from {
        lemma_last_dot_skips(p, from, n - 1);
    }
}

/// The extension of a bare file name `stem.ext`, with a non-empty stem and
/// no `.` in `ext`, is `ext`; so such a name qualifies exactly when `ext` is
/// one of the forwarded extensions.
pub proof fn lemma_bare_extension_of_stem_and_ext(stem: Seq<char>, ext: Seq<char>)
    requires
        stem.len() > 0,
        !ext.contains('.'),
    ensures
        bare_extension(stem + seq!['.'] + ext) == Some(ext),
{
    let p = stem + seq!['.'] + ext;
    let k = stem.len() as int;
    assert forall|i: int| k + 1 <= i < p.len() implies p[i] != '.' by {
        assert(p[i] == ext[i - k - 1]);
    }
    lemma_last_dot_skips(p, k + 1, p.len() as int);
    assert(p[k] == '.');
    assert(last_dot(p, k + 1) == k);
    assert(p.subrange(k + 1, p.len() as int) =~= ext);
}

/// Relies on std::path::Path::extension: the part of the file name after its
/// final '.', which holds no '.' itself; for a bare file name, `None` when no
/// '.' follows the first character.
#[verifier::external_body]
fn extension_of(path: &str) -> (r: Option<String>)
    ensures
        opt_view(r) == extension_name(path@),
        r matches Some(e) ==> !e@.contains('.'),
        is_bare_name(path@) ==> opt_view(r) == bare_extension(path@),
{
    std::path::Path::new(path).extension().map(|e| e.to_string_lossy().into_owned())
}

/// Whether `e` is one of the forwarded extensions.
pub fn is_accepted_extension(e: &Option<String>) -> (r: bool)
    ensures
        r == has_accepted_extension(*e),
{
    proof {
        reveal_strlit("md");
        reveal_strlit("png");
    }
    match e {
        Some(x) => {
            let n = x.as_str().unicode_len();
            if n == 2 {
                let r = x.as_str().get_char(0) == 'm' && x.as_str().get_char(1) == 'd';
                proof {
                    if r {
                        assert(x@ =~= "md"@);
                    } else {
                        assert(x@[0] != 'm' || x@[1] != 'd');
                        assert(x@ != "md"@);
                    }
                }
                r
            } else if n == 3 {
                let r = x.as_str().get_char(0) == 'p' && x.as_str().get_char(1) == 'n'
                    && x.as_str().get_char(2) == 'g';
                proof {
                    if r {
                        assert(x@ =~= "png"@);
                    } else {
                        assert(x@[0] != 'p' || x@[1] != 'n' || x@[2] != 'g');
                        assert(x@ != "png"@);
                    }
                }
                r
            } else {
                false
            }
        },
        None => false,
    }
}

/// A file dropped onto the main window.
pub struct DroppedFile {
    pub path: String,
    pub extension: Option<String>,
}

impl DroppedFile {
    /// The dropped file at `path`, with its extension as std reads it.
    pub fn new(path: String) -> (r: DroppedFile)
        ensures
            r.path == path,
            opt_view(r.extension) == extension_name(path@),
            is_bare_name(path@) ==> opt_view(r.extension) == bare_extension(path@),
            r.extension matches Some(e) ==> !e@.contains('.'),
    {
        let extension = extension_of(path.as_str());
        DroppedFile { path, extension }
    }

    /// Whether the file is forwarded: its extension is accepted.
    pub fn qualifies(&self) -> (r: bool)
        ensures
            r == has_accepted_extension(self.extension),
    {
        is_accepted_extension(&self.extension)
    }
}

/// A command-line argument naming a file, and whether that file exists.
pub struct CliFileArgument {
    pub path: String,
    pub extension: Option<String>,
    pub exists: bool,
}

/// The argument names an existing file with a forwarded extension.
pub open spec fn cli_qualifies(a: CliFileArgument) -> bool {
    a.exists && has_accepted_extension(a.extension)
}

impl CliFileArgument {
    /// The argument `path`, with its extension as std reads it, and whether
    /// the file it names exists.
    pub fn new(path: String, exists: bool) -> (r: CliFileArgument)
        ensures
            r.path == path,
            r.exists == exists,
            opt_view(r.extension) == extension_name(path@),
            is_bare_name(path@) ==> opt_view(r.extension) == bare_extension(path@),
            r.extension matches Some(e) ==> !e@.contains('.'),
    {
        let extension = extension_of(path.as_str());
        CliFileArgument { path, extension, exists }
    }

    /// Whether the argument is forwarded: the file exists and its extension
    /// is accepted.
    pub fn qualifies(&self) -> (r: bool)
        ensures
            r == cli_qualifies(*self),
    {
        self.exists && is_accepted_extension(&self.extension)
    }
}

/// `i` is the first argument after the executable's own path that qualifies.
pub open spec fn first_qualifying(args: Seq<CliFileArgument>, i: int) -> bool {
    &&& 1 <= i < args.len()
    &&& cli_qualifies(args[i])
    &&& forall|j: int| 1 <= j < i ==> !cli_qualifies(#[trigger] args[j])
}

/// Picks the command-line argument to forward: the first one after the
/// executable's own path (the first argument, always skipped) that
/// qualifies. Later qualifying arguments are ignored.
pub fn select_cli_argument(args: &Vec<CliFileArgument>) -> (r: Option<usize>)
    ensures
        match r {
            Some(i) => first_qualifying(args@, i as int),
            None => forall|j: int| 1 <= j < args@.len() ==> !cli_qualifies(#[trigger] args@[j]),
        },
{
    let mut i: usize = 1;
    while i < args.len()
        invariant
            1 <= i,
            forall|j: int| 1 <= j < i && j < args@.len() ==> !cli_qualifies(#[trigger] args@[j]),
        decreases args@.len() - i,
    {
        if args[i].qualifies() {
            return Some(i);
        }
        i = i + 1;
    }
    None
}

/// The path a drop forwards: only the first dropped path is looked at, and
/// it is forwarded if its extension is accepted.
pub open spec fn drop_choice(paths: Seq<DroppedFile>) -> Option<String> {
    if paths.len() > 0 && has_accepted_extension(paths[0].extension) {
        Some(paths[0].path)
    } else {
        None
    }
}

/// The path a drop forwards, if any: the first dropped path, when its
/// extension is accepted. Other dropped paths are not looked at.
pub fn select_dropped(paths: &Vec<DroppedFile>) -> (r: Option<String>)
    ensures
        r == drop_choice(paths@),
{
    if paths.len() > 0 && paths[0].qualifies() {
        Some(paths[0].path.clone())
    } else {
        None
    }
}

/// An event pushed to the frontend, with the path it carries.
pub enum Emission {
    /// `cli-file-arg`: the file named on the command line.
    CliFileArg(String),
    /// `file-dropped`: a file dropped onto the main window.
    FileDropped(String),
}

impl Emission {
    /// The name the frontend listens on.
    pub fn event_name(&self) -> (r: &'static str)
        ensures
            r@ == (match self {
                Emission::CliFileArg(_) => "cli-file-arg"@,
                Emission::FileDropped(_) => "file-dropped"@,
            }),
    {
        match self {
            Emission::CliFileArg(_) => "cli-file-arg",
            Emission::FileDropped(_) => "file-dropped",
        }
    }

    /// The path the event carries.
    pub fn payload(&self) -> (r: String)
        ensures
            r == (match self {
                Emission::CliFileArg(p) => *p,
                Emission::FileDropped(p) => *p,
            }),
    {
        match self {
            Emission::CliFileArg(p) => p.clone(),
            Emission::FileDropped(p) => p.clone(),
        }
    }
}

/// The forwarder's state: waiting to announce the command-line file, or idle
/// with only the drop callback active.
pub enum ForwarderState {
    ArmedForCliArg(String),
    Idle,
}

/// What the host reports to the forwarder.
pub enum HostEvent {
    /// The delay after start has run out.
    DelayElapsed,
    /// Files were dropped onto the main window, in this order.
    FilesDropped(Vec<DroppedFile>),
}

/// The forwarder's state after `event`, and the event it emits then.
pub open spec fn transition(state: ForwarderState, event: HostEvent) -> (ForwarderState, Option<Emission>) {
    match event {
        HostEvent::DelayElapsed => match state {
            ForwarderState::ArmedForCliArg(p) => (ForwarderState::Idle, Some(Emission::CliFileArg(p))),
            ForwarderState::Idle => (ForwarderState::Idle, None),
        },
        HostEvent::FilesDropped(paths) => (state, match drop_choice(paths@) {
            Some(p) => Some(Emission::FileDropped(p)),
            None => None,
        }),
    }
}

/// The state the forwarder starts in, given the process's arguments.
pub open spec fn initial_state(args: Seq<CliFileArgument>) -> ForwarderState {
    if exists|i: int| first_qualifying(args, i) {
        ForwarderState::ArmedForCliArg(args[choose|i: int| first_qualifying(args, i)].path)
    } else {
        ForwarderState::Idle
    }
}

/// Decides which start-up events reach the frontend. It starts armed with
/// the command-line file to announce, if there is one, and announces it
/// once the delay has run out; every drop is looked at as it comes.
pub struct Forwarder {
    pub state: ForwarderState,
}

/// There is only one first qualifying argument.
proof fn lemma_first_qualifying_unique(args: Seq<CliFileArgument>, i: int, k: int)
    requires
        first_qualifying(args, i),
        first_qualifying(args, k),
    ensures
        i == k,
{
    if i < k {
        assert(!cli_qualifies(args[i]));
    } else if k < i {
        assert(!cli_qualifies(args[k]));
    }
}

impl Forwarder {
    /// The forwarder for a process started with `args` (the first being the
    /// executable's own path).
    pub fn start(args: Vec<CliFileArgument>) -> (r: Forwarder)
        ensures
            r.state == initial_state(args@),
    {
        let ghost all = args@;
        match select_cli_argument(&args) {
            Some(i) => {
                let mut args = args;
                let chosen = args.swap_remove(i);
                proof {
                    let k = choose|k: int| first_qualifying(all, k);
                    lemma_first_qualifying_unique(all, i as int, k);
                }
                Forwarder { state: ForwarderState::ArmedForCliArg(chosen.path) }
            },
            None => Forwarder { state: ForwarderState::Idle },
        }
    }

    /// Takes in what the host reported and returns the event to emit, if
    /// any. Emitting is best effort: the caller drops a failed emission.
    pub fn handle(&mut self, event: HostEvent) -> (r: Option<Emission>)
        ensures
            (final(self).state, r) == transition(old(self).state, event),
    {
        match event {
            HostEvent::DelayElapsed => {
                let r = match &self.state {
                    ForwarderState::ArmedForCliArg(p) => Some(Emission::CliFileArg(p.clone())),
                    ForwarderState::Idle => None,
                };
                self.state = ForwarderState::Idle;
                r
            },
            HostEvent::FilesDropped(paths) => match select_dropped(&paths) {
                Some(p) => Some(Emission::FileDropped(p)),
                None => None,
            },
        }
    }
}

/// The states the forwarder passes through on `events`, and what it emits.
pub open spec fn run(state: ForwarderState, events: Seq<HostEvent>) -> (ForwarderState, Seq<Option<Emission>>)
    decreases events.len(),
{
    if events.len() == 0 {
        (state, Seq::empty())
    } else {
        let (next, out) = transition(state, events[0]);
        let (last, rest) = run(next, events.drop_first());
        (last, seq![out] + rest)
    }
}

/// How many of `outs` announce the command-line file.
pub open spec fn cli_emissions(outs: Seq<Option<Emission>>) -> nat
    decreases outs.len(),
{
    if outs.len() == 0 {
        0
    } else {
        (if outs[0] matches Some(Emission::CliFileArg(_)) { 1nat } else { 0nat })
            + cli_emissions(outs.drop_first())
    }
}

/// The command-line file is announced at most once, whatever the host
/// reports, and never by a forwarder that is already idle.
pub proof fn lemma_cli_announced_at_most_once(state: ForwarderState, events: Seq<HostEvent>)
    ensures
        cli_emissions(run(state, events).1) <= 1,
        state is Idle ==> cli_emissions(run(state, events).1) == 0,
    decreases events.len(),
{
    if events.len() > 0 {
        let (next, out) = transition(state, events[0]);
        lemma_cli_announced_at_most_once(next, events.drop_first());
        let outs = run(state, events).1;
        assert(outs.drop_first() =~= run(next, events.drop_first()).1);
    }
}

/// A drop is decided by its first path alone: whatever follows it in the
/// drop changes nothing.
pub proof fn lemma_drop_reads_first_path_only(a: Seq<DroppedFile>, b: Seq<DroppedFile>)
    requires
        a.len() > 0,
        b.len() > 0,
        a[0] == b[0],
    ensures
        drop_choice(a) == drop_choice(b),
{
}

/// When the delay runs out, a forwarder started with `args` announces the
/// first qualifying argument after the executable's own path, and no other.
pub proof fn lemma_delay_announces_first_match(args: Seq<CliFileArgument>, i: int)
    requires
        first_qualifying(args, i),
    ensures
        transition(initial_state(args), HostEvent::DelayElapsed) == (
            ForwarderState::Idle,
            Some(Emission::CliFileArg(args[i].path)),
        ),
{
    let k = choose|k: int| first_qualifying(args, k);
    lemma_first_qualifying_unique(args, i, k);
}

} // verus!
