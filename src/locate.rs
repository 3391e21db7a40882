use vstd::prelude::*;
use vstd::utf8::{decode_utf8, valid_utf8};

verus! {

/// What the frontend asked for.
#[derive(Clone, Copy, Debug, PartialEq, Eq, Structural)]
pub enum ResourceKind {
    /// A filesystem path that is read as it is, with no search.
    RawPath,
    /// A bare file name, looked up among the bundled files.
    NamedBundledFile,
    /// The welcome document, `index.md`.
    WellKnownWelcomeDoc,
    /// A shader script, looked up as `shaders/<name>.js`.
    NamedShader,
}

/// A request: its kind, and an identifier whose meaning depends on the kind
/// (a path, a file name, nothing, or a shader's base name).
pub struct ResourceRequest {
    pub kind: ResourceKind,
    pub identifier: String,
}

/// The directories the host reports for the running process; a `None` is a
/// directory the host could not report, and is left out of every search.
pub struct HostPaths {
    /// The bundled-resource directory.
    pub resource_dir: Option<String>,
    /// The directory that holds the executable.
    pub exe_dir: Option<String>,
    /// The working directory.
    pub cwd: Option<String>,
    /// The development location of the welcome document: two levels above
    /// the bundled-resource directory, then `dist-tstauri`.
    pub dev_dir: Option<String>,
}

/// The directory separator this library writes when it joins paths.
pub open spec fn separator() -> char {
    '/'
}

/// `name` appended to `dir`, with one separator between them.
pub open spec fn join(dir: Seq<char>, name: Seq<char>) -> Seq<char> {
    if dir.len() == 0 {
        name
    } else if dir.last() == separator() {
        dir + name
    } else {
        dir + seq![separator()] + name
    }
}

/// The directory `o` as a sequence of one, or none where it is missing.
pub open spec fn present(o: Option<String>) -> Seq<Seq<char>> {
    match o {
        Some(s) => seq![s@],
        None => Seq::empty(),
    }
}

/// The directories searched for a request of `kind`, highest priority first.
pub open spec fn search_roots(kind: ResourceKind, host: HostPaths) -> Seq<Seq<char>> {
    match kind {
        ResourceKind::RawPath => Seq::empty(),
        ResourceKind::NamedBundledFile => present(host.resource_dir) + present(host.cwd),
        ResourceKind::NamedShader => present(host.resource_dir) + present(host.cwd),
        ResourceKind::WellKnownWelcomeDoc => present(host.resource_dir) + present(host.exe_dir)
            + present(host.cwd) + present(host.dev_dir),
    }
}

/// Where a request's file would stand under the directory `root`.
pub open spec fn candidate_in(root: Seq<char>, kind: ResourceKind, id: Seq<char>) -> Seq<char> {
    match kind {
        ResourceKind::WellKnownWelcomeDoc => join(root, "index.md"@),
        ResourceKind::NamedShader => join(join(root, "shaders"@), id + ".js"@),
        _ => join(root, id),
    }
}

/// The paths a request probes, in the order it probes them.
pub open spec fn candidates(kind: ResourceKind, id: Seq<char>, host: HostPaths) -> Seq<Seq<char>> {
    search_roots(kind, host).map_values(|root: Seq<char>| candidate_in(root, kind, id))
}

/// The text of each string in `v`.
pub open spec fn views(v: Seq<String>) -> Seq<Seq<char>> {
    v.map_values(|s: String| s@)
}

/// Joins `name` onto `dir` with one separator between them.
pub fn join_path(dir: &str, name: &str) -> (r: String)
    ensures
        r@ == join(dir@, name@),
{
    let n = dir.unicode_len();
    let mut r = String::from_str(dir);
    if n > 0 && dir.get_char(n - 1) != '/' {
        r.append("/");
    }
    r.append(name);
    proof {
        reveal_strlit("/");
        if n > 0 {
            assert(dir@.last() == dir@[n - 1]);
        }
    }
    r
}

/// Appends the directory `o` to `v`, if it is there.
fn push_present(v: &mut Vec<String>, o: &Option<String>)
    ensures
        views(final(v)@) == views(old(v)@) + present(*o),
{
    match o {
        Some(s) => {
            v.push(s.clone());
            assert(views(final(v)@) =~= views(old(v)@) + present(*o));
        },
        None => {
            assert(views(final(v)@) =~= views(old(v)@) + present(*o));
        },
    }
}

/// The directories searched for a request of `kind`, highest priority first.
pub fn roots_for(kind: ResourceKind, host: &HostPaths) -> (r: Vec<String>)
    ensures
        views(r@) == search_roots(kind, *host),
{
    let mut r: Vec<String> = Vec::new();
    assert(views(r@) =~= Seq::<Seq<char>>::empty());
    match kind {
        ResourceKind::RawPath => {},
        ResourceKind::NamedBundledFile | ResourceKind::NamedShader => {
            push_present(&mut r, &host.resource_dir);
            push_present(&mut r, &host.cwd);
        },
        ResourceKind::WellKnownWelcomeDoc => {
            push_present(&mut r, &host.resource_dir);
            push_present(&mut r, &host.exe_dir);
            push_present(&mut r, &host.cwd);
            push_present(&mut r, &host.dev_dir);
        },
    }
    proof {
        assert(Seq::<Seq<char>>::empty() + present(host.resource_dir) =~= present(host.resource_dir));
    }
    r
}

/// Where a request's file would stand under the directory `root`.
pub fn candidate_path(root: &str, kind: ResourceKind, id: &str) -> (r: String)
    ensures
        r@ == candidate_in(root@, kind, id@),
{
    match kind {
        ResourceKind::WellKnownWelcomeDoc => join_path(root, "index.md"),
        ResourceKind::NamedShader => {
            let dir = join_path(root, "shaders");
            let mut file = String::from_str(id);
            file.append(".js");
            join_path(dir.as_str(), file.as_str())
        },
        _ => join_path(root, id),
    }
}

/// The paths a request probes, in the order it probes them.
pub fn candidate_paths(request: &ResourceRequest, host: &HostPaths) -> (r: Vec<String>)
    ensures
        views(r@) == candidates(request.kind, request.identifier@, *host),
{
    let roots = roots_for(request.kind, host);
    let mut r: Vec<String> = Vec::new();
    let mut i: usize = 0;
    while i < roots.len()
        invariant
            i <= roots@.len(),
            views(roots@) == search_roots(request.kind, *host),
            views(r@) =~= candidates(request.kind, request.identifier@, *host).subrange(0, i as int),
        decreases roots@.len() - i,
    {
        let c = candidate_path(roots[i].as_str(), request.kind, request.identifier.as_str());
        let ghost before = r@;
        r.push(c);
        proof {
            assert(r@ == before.push(c));
            assert(views(r@) =~= views(before).push(c@));
            assert(views(roots@)[i as int] == roots@[i as int]@);
            assert(views(roots@).len() == roots@.len());
            let cs = candidates(request.kind, request.identifier@, *host);
            assert(cs[i as int] == candidate_in(roots@[i as int]@, request.kind, request.identifier@));
            assert(views(r@) =~= cs.subrange(0, i + 1));
        }
        i = i + 1;
    }
    proof {
        assert(candidates(request.kind, request.identifier@, *host).subrange(0, i as int)
            =~= candidates(request.kind, request.identifier@, *host));
    }
    r
}

/// What a search asks of its caller next.
pub enum Step {
    /// Tell the search whether this path exists.
    Probe(String),
    /// Read this path: it is the file the request resolves to.
    Read(String),
    /// No candidate held the file; these are all the paths probed, in order.
    NotFound(Vec<String>),
}

/// The mathematical value of a [`Step`].
pub enum StepModel {
    Probe(Seq<char>),
    Read(Seq<char>),
    NotFound(Seq<Seq<char>>),
}

impl View for Step {
    type V = StepModel;

    open spec fn view(&self) -> StepModel {
        match self {
            Step::Probe(p) => StepModel::Probe(p@),
            Step::Read(p) => StepModel::Read(p@),
            Step::NotFound(ps) => StepModel::NotFound(views(ps@)),
        }
    }
}

/// The mathematical value of a [`Search`].
pub struct SearchModel {
    /// The path of a raw-path request, which is read with no search.
    pub direct: Option<Seq<char>>,
    /// The candidate paths, highest priority first.
    pub candidates: Seq<Seq<char>>,
    /// How many candidates were probed and found missing.
    pub absent: nat,
    /// Whether the candidate after those was probed and found present.
    pub found: bool,
}

impl SearchModel {
    /// The counters stay within the candidates, and a raw-path search has none.
    pub open spec fn wf(self) -> bool {
        &&& self.absent <= self.candidates.len()
        &&& self.found ==> self.absent < self.candidates.len()
        &&& self.direct is Some ==> self.candidates.len() == 0
    }

    /// What the search asks next.
    pub open spec fn step(self) -> StepModel {
        match self.direct {
            Some(p) => StepModel::Read(p),
            None => if self.found {
                StepModel::Read(self.candidates[self.absent as int])
            } else if self.absent < self.candidates.len() {
                StepModel::Probe(self.candidates[self.absent as int])
            } else {
                StepModel::NotFound(self.candidates)
            },
        }
    }

    /// The search after its pending probe was answered with `exists`.
    pub open spec fn answered(self, exists: bool) -> SearchModel {
        if exists {
            SearchModel { found: true, ..self }
        } else {
            SearchModel { absent: self.absent + 1, ..self }
        }
    }

    /// How many paths have been probed so far.
    pub open spec fn probes(self) -> nat {
        self.absent + if self.found { 1nat } else { 0nat }
    }

    /// The search after `k` probes in a row were answered "missing".
    pub open spec fn after_misses(self, k: nat) -> SearchModel
        decreases k,
    {
        if k == 0 {
            self
        } else {
            self.after_misses((k - 1) as nat).answered(false)
        }
    }
}

/// A fresh search for `request` under `host`'s directories.
pub open spec fn initial_search(kind: ResourceKind, id: Seq<char>, host: HostPaths) -> SearchModel {
    if kind == ResourceKind::RawPath {
        SearchModel { direct: Some(id), candidates: Seq::empty(), absent: 0, found: false }
    } else {
        SearchModel { direct: None, candidates: candidates(kind, id, host), absent: 0, found: false }
    }
}

/// An ordered, first-match search for one request. The caller performs each
/// probe it asks for and hands back the answer; the search never asks about a
/// path after one was found, and asks about each candidate at most once.
pub struct Search {
    direct: Option<String>,
    candidates: Vec<String>,
    absent: usize,
    found: bool,
}

impl View for Search {
    type V = SearchModel;

    closed spec fn view(&self) -> SearchModel {
        SearchModel {
            direct: match self.direct {
                Some(p) => Some(p@),
                None => None,
            },
            candidates: views(self.candidates@),
            absent: self.absent as nat,
            found: self.found,
        }
    }
}

impl Search {
    /// Starts the search for `request` under `host`'s directories.
    pub fn new(request: &ResourceRequest, host: &HostPaths) -> (r: Search)
        ensures
            r@ == initial_search(request.kind, request.identifier@, *host),
            r@.wf(),
    {
        if request.kind == ResourceKind::RawPath {
            let r = Search {
                direct: Some(request.identifier.clone()),
                candidates: Vec::new(),
                absent: 0,
                found: false,
            };
            assert(r@.candidates =~= Seq::<Seq<char>>::empty());
            r
        } else {
            Search {
                direct: None,
                candidates: candidate_paths(request, host),
                absent: 0,
                found: false,
            }
        }
    }

    /// What the search asks next.
    pub fn next_step(&self) -> (r: Step)
        requires
            self@.wf(),
        ensures
            r@ == self@.step(),
    {
        match &self.direct {
            Some(p) => Step::Read(p.clone()),
            None => {
                if self.found {
                    Step::Read(self.candidates[self.absent].clone())
                } else if self.absent < self.candidates.len() {
                    Step::Probe(self.candidates[self.absent].clone())
                } else {
                    let mut all: Vec<String> = Vec::new();
                    let mut i: usize = 0;
                    while i < self.candidates.len()
                        invariant
                            i <= self.candidates@.len(),
                            views(all@) =~= views(self.candidates@).subrange(0, i as int),
                        decreases self.candidates@.len() - i,
                    {
                        let ghost before = all@;
                        all.push(self.candidates[i].clone());
                        assert(views(all@) =~= views(before).push(self.candidates@[i as int]@));
                        i = i + 1;
                    }
                    assert(views(self.candidates@).subrange(0, i as int) =~= views(self.candidates@));
                    Step::NotFound(all)
                }
            },
        }
    }

    /// Hands back the answer to the pending probe, and returns what the
    /// search asks next.
    pub fn answer(&mut self, exists: bool) -> (r: Step)
        requires
            old(self)@.wf(),
            old(self)@.step() is Probe,
        ensures
            final(self)@ == old(self)@.answered(exists),
            final(self)@.wf(),
            r@ == final(self)@.step(),
    {
        assert(views(self.candidates@).len() == self.candidates@.len());
        assert(self@.absent < self@.candidates.len());
        assert(self.absent < self.candidates.len());
        if exists {
            self.found = true;
        } else {
            self.absent = self.absent + 1;
        }
        self.next_step()
    }
}

/// Once the file is found in a candidate, no further candidate is probed:
/// the search reads that candidate and asks nothing more. In particular a hit
/// in the highest-priority directory is the only probe the search makes.
pub proof fn lemma_hit_stops_search(s: SearchModel)
    requires
        s.wf(),
        s.step() is Probe,
    ensures
        s.answered(true).wf(),
        s.answered(true).step() == StepModel::Read(s.candidates[s.absent as int]),
        s.answered(true).probes() == s.probes() + 1,
        s.absent == 0 ==> s.answered(true).probes() == 1,
{
}

/// A hit in the highest-priority directory: the search probes that
/// directory's candidate first, and after a "present" answer reads it and
/// probes nothing else.
pub proof fn lemma_first_root_hit(kind: ResourceKind, id: Seq<char>, host: HostPaths)
    requires
        kind != ResourceKind::RawPath,
        search_roots(kind, host).len() > 0,
    ensures
        initial_search(kind, id, host).step() == StepModel::Probe(
            candidate_in(search_roots(kind, host)[0], kind, id),
        ),
        initial_search(kind, id, host).answered(true).step() == StepModel::Read(
            candidate_in(search_roots(kind, host)[0], kind, id),
        ),
        initial_search(kind, id, host).answered(true).probes() == 1,
{
}

proof fn lemma_misses(s: SearchModel, k: nat)
    requires
        s.wf(),
        s.direct is None,
        !s.found,
        s.absent + k <= s.candidates.len(),
    ensures
        s.after_misses(k) == (SearchModel { absent: s.absent + k, ..s }),
    decreases k,
{
    if k > 0 {
        lemma_misses(s, (k - 1) as nat);
    }
}

/// Candidates are probed in priority order: after `k` misses the search asks
/// about the candidate under the `k`-th directory.
pub proof fn lemma_probe_order(kind: ResourceKind, id: Seq<char>, host: HostPaths, k: nat)
    requires
        kind != ResourceKind::RawPath,
        k < search_roots(kind, host).len(),
    ensures
        initial_search(kind, id, host).after_misses(k).step() == StepModel::Probe(
            candidate_in(search_roots(kind, host)[k as int], kind, id),
        ),
{
    lemma_misses(initial_search(kind, id, host), k);
}

/// When no directory holds the file, the search ends in `NotFound` with one
/// attempted path per searched directory, in priority order.
pub proof fn lemma_not_found_lists_every_root(kind: ResourceKind, id: Seq<char>, host: HostPaths)
    requires
        kind != ResourceKind::RawPath,
    ensures
        ({
            let n = search_roots(kind, host).len();
            let end = initial_search(kind, id, host).after_misses(n);
            &&& end.wf()
            &&& end.probes() == n
            &&& end.step() matches StepModel::NotFound(tried)
            &&& tried.len() == n
            &&& forall|i: int| 0 <= i < n ==> tried[i] == candidate_in(search_roots(kind, host)[i], kind, id)
        }),
{
    lemma_misses(initial_search(kind, id, host), search_roots(kind, host).len());
}

/// `q` is `p` with something taken off its end.
pub open spec fn proper_prefix(q: Seq<char>, p: Seq<char>) -> bool {
    q.len() < p.len() && q == p.subrange(0, q.len() as int)
}

/// The parent of a path as std reads it: the path without its final
/// component, or `None` where there is none.
pub uninterp spec fn parent_of(p: Seq<char>) -> Option<Seq<char>>;

/// The text of `o`, if it is there.
pub open spec fn opt_view(o: Option<String>) -> Option<Seq<char>> {
    match o {
        Some(s) => Some(s@),
        None => None,
    }
}

/// The development location of the welcome document for the
/// bundled-resource directory `res`: `dist-tstauri` two levels above it, if
/// it has two levels above it.
pub open spec fn dev_location(res: Seq<char>) -> Option<Seq<char>> {
    match parent_of(res) {
        Some(up) => match parent_of(up) {
            Some(two_up) => Some(join(two_up, "dist-tstauri"@)),
            None => None,
        },
        None => None,
    }
}

/// Relies on std::path::Path::parent: the path without its final component,
/// so a proper prefix of it; an empty path has no parent.
#[verifier::external_body]
fn parent_dir(p: &str) -> (r: Option<String>)
    ensures
        opt_view(r) == parent_of(p@),
        r matches Some(q) ==> proper_prefix(q@, p@),
        p@.len() == 0 ==> r is None,
{
    std::path::Path::new(p).parent().map(|q| q.to_string_lossy().into_owned())
}

impl HostPaths {
    /// The directories of a process whose host reported these paths (`None`
    /// where it could not report one). The executable's directory is the
    /// parent of its path; the development location is `dist-tstauri` two
    /// levels above the bundled-resource directory.
    pub fn from_host(resource_dir: Option<String>, exe_path: Option<String>, cwd: Option<String>) -> (r: HostPaths)
        ensures
            r.resource_dir == resource_dir,
            r.cwd == cwd,
            opt_view(r.exe_dir) == (match exe_path {
                Some(e) => parent_of(e@),
                None => None,
            }),
            opt_view(r.dev_dir) == (match resource_dir {
                Some(res) => dev_location(res@),
                None => None,
            }),
    {
        let exe_dir = match &exe_path {
            Some(e) => parent_dir(e.as_str()),
            None => None,
        };
        let mut dev_dir: Option<String> = None;
        if let Some(res) = &resource_dir {
            if let Some(one_up) = parent_dir(res.as_str()) {
                if let Some(two_up) = parent_dir(one_up.as_str()) {
                    dev_dir = Some(join_path(two_up.as_str(), "dist-tstauri"));
                }
            }
        }
        HostPaths { resource_dir, exe_dir, cwd, dev_dir }
    }
}

/// Why a request could not be served.
pub enum LoadError {
    /// No searched directory held the file; every path probed, in order.
    NotFound { attempted: Vec<String> },
    /// The file was there but could not be read.
    Io { path: String, reason: String },
    /// The file was read but is not valid UTF-8 text.
    Decode { path: String },
    /// The host could not report a directory the request needs.
    HostUnavailable { reason: String },
}

/// A file that a request resolved to, and what it holds.
pub struct Found<C> {
    pub path: String,
    pub contents: C,
}

/// Relies on String::from_utf8: it succeeds exactly on valid UTF-8, with the
/// text that the bytes encode.
#[verifier::external_body]
fn utf8_text(bytes: Vec<u8>) -> (r: Option<String>)
    ensures
        r is Some <==> valid_utf8(bytes@),
        r matches Some(s) ==> s@ == decode_utf8(bytes@),
{
    String::from_utf8(bytes).ok()
}

/// The outcome of reading the file at `path` as text, given what the read
/// returned: its bytes, or the reason it failed.
pub fn finish_text(path: String, read: Result<Vec<u8>, String>) -> (r: Result<Found<String>, LoadError>)
    ensures
        match read {
            Err(e) => r == Err::<Found<String>, LoadError>(LoadError::Io { path, reason: e }),
            Ok(b) => if valid_utf8(b@) {
                r matches Ok(f) && f.path == path && f.contents@ == decode_utf8(b@)
            } else {
                r == Err::<Found<String>, LoadError>(LoadError::Decode { path })
            },
        },
{
    match read {
        Err(e) => Err(LoadError::Io { path, reason: e }),
        Ok(b) => match utf8_text(b) {
            Some(text) => Ok(Found { path, contents: text }),
            None => Err(LoadError::Decode { path }),
        },
    }
}

/// The outcome of reading the file at `path` as raw bytes, given what the
/// read returned.
pub fn finish_bytes(path: String, read: Result<Vec<u8>, String>) -> (r: Result<Found<Vec<u8>>, LoadError>)
    ensures
        read matches Err(e) ==> r == Err::<Found<Vec<u8>>, LoadError>(LoadError::Io { path, reason: e }),
        read matches Ok(b) ==> r == Ok::<Found<Vec<u8>>, LoadError>(Found { path, contents: b }),
{
    match read {
        Err(e) => Err(LoadError::Io { path, reason: e }),
        Ok(b) => Ok(Found { path, contents: b }),
    }
}

/// The bundled-resource directory as a plain path, given what the host
/// reported: the directory, or why it could not report one.
pub fn bundled_directory(resource_dir: Result<String, String>) -> (r: Result<String, LoadError>)
    ensures
        resource_dir matches Ok(d) ==> (r matches Ok(c) && c@ == crate::paths::cleaned(d@)),
        resource_dir matches Err(e) ==> r == Err::<String, LoadError>(LoadError::HostUnavailable { reason: e }),
{
    match resource_dir {
        Ok(d) => Ok(crate::paths::clean_path(d.as_str())),
        Err(e) => Err(LoadError::HostUnavailable { reason: e }),
    }
}

/// The reason a read of valid-looking bytes failed as text.
pub open spec fn not_text_reason() -> Seq<char> {
    "stream did not contain valid UTF-8"@
}

/// How a failed read is described, before its reason.
pub open spec fn read_failure_lead(kind: ResourceKind, id: Seq<char>) -> Seq<char> {
    match kind {
        ResourceKind::RawPath => "Failed to read file: "@,
        ResourceKind::NamedBundledFile => "Failed to read "@ + id + ": "@,
        ResourceKind::WellKnownWelcomeDoc => "Failed to read welcome screen: "@,
        ResourceKind::NamedShader => "Failed to read shader '"@ + id + "': "@,
    }
}

/// How a fruitless search is described.
pub open spec fn not_found_text(kind: ResourceKind, id: Seq<char>) -> Seq<char> {
    match kind {
        ResourceKind::WellKnownWelcomeDoc =>
            "Welcome screen (index.md) not found. Please ensure it's bundled in the app or in the same folder as the executable."@,
        ResourceKind::NamedShader => "Shader '"@ + id + "' not found in resources or current directory"@,
        ResourceKind::NamedBundledFile => id + " not found in resources or current directory"@,
        ResourceKind::RawPath => id + " not found"@,
    }
}

/// The message the frontend is given for `err`, raised by a request of
/// `kind` for `id`.
pub open spec fn message_text(err: LoadError, kind: ResourceKind, id: Seq<char>) -> Seq<char> {
    match err {
        LoadError::NotFound { .. } => not_found_text(kind, id),
        LoadError::Io { reason, .. } => read_failure_lead(kind, id) + reason@,
        LoadError::Decode { .. } => read_failure_lead(kind, id) + not_text_reason(),
        LoadError::HostUnavailable { reason } => "Failed to get resource dir: "@ + reason@,
    }
}

impl LoadError {
    /// The human-readable message the frontend is given for this error,
    /// raised by `request`.
    pub fn message(&self, request: &ResourceRequest) -> (r: String)
        ensures
            r@ == message_text(*self, request.kind, request.identifier@),
    {
        let id = request.identifier.as_str();
        let mut r = String::new();
        match self {
            LoadError::NotFound { .. } => {
                match request.kind {
                    ResourceKind::WellKnownWelcomeDoc => {
                        r.append("Welcome screen (index.md) not found. Please ensure it's bundled in the app or in the same folder as the executable.");
                    },
                    ResourceKind::NamedShader => {
                        r.append("Shader '");
                        r.append(id);
                        r.append("' not found in resources or current directory");
                    },
                    ResourceKind::NamedBundledFile => {
                        r.append(id);
                        r.append(" not found in resources or current directory");
                    },
                    ResourceKind::RawPath => {
                        r.append(id);
                        r.append(" not found");
                    },
                }
            },
            LoadError::Io { reason, .. } => {
                read_failure_lead_into(&mut r, request.kind, id);
                r.append(reason.as_str());
            },
            LoadError::Decode { .. } => {
                read_failure_lead_into(&mut r, request.kind, id);
                r.append("stream did not contain valid UTF-8");
            },
            LoadError::HostUnavailable { reason } => {
                r.append("Failed to get resource dir: ");
                r.append(reason.as_str());
            },
        }
        assert(r@ =~= message_text(*self, request.kind, request.identifier@));
        r
    }
}

/// Appends to `r` how a failed read is described, before its reason.
fn read_failure_lead_into(r: &mut String, kind: ResourceKind, id: &str)
    ensures
        final(r)@ =~= old(r)@ + read_failure_lead(kind, id@),
{
    match kind {
        ResourceKind::RawPath => {
            r.append("Failed to read file: ");
        },
        ResourceKind::NamedBundledFile => {
            r.append("Failed to read ");
            r.append(id);
            r.append(": ");
        },
        ResourceKind::WellKnownWelcomeDoc => {
            r.append("Failed to read welcome screen: ");
        },
        ResourceKind::NamedShader => {
            r.append("Failed to read shader '");
            r.append(id);
            r.append("': ");
        },
    }
}

} // verus!
