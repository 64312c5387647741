//! The resolution state machine.
//!
//! Each call of [`RippleExtension::step`] takes the answer to the previous
//! request (or [`Event::Start`]) and returns the next request, until it
//! returns [`Op::Finish`] with the path of a runnable binary or an error
//! message. The caller carries out each request against the host.

use vstd::prelude::*;
use crate::paths::{
    candidate_list, entry_script_rel, installed_entry_script_path, installed_launcher_path,
    join_spec, launcher_rel, probe_candidates, Mode, Os,
};
use crate::version::{
    dot_count, is_digit, is_exact_version, missing_pin_message, not_exact_message, pin_outcome, trim, trim_of,
    validate_pin,
};

verus! {

/// Installation progress reported to the host.
#[derive(Debug, Clone, Copy, PartialEq, Eq, Structural)]
pub enum Status {
    CheckingForUpdate,
    Downloading,
}

/// Where a resolution stands, between two steps.
#[derive(Debug)]
pub enum Phase {
    /// No resolution in progress.
    Idle,
    /// Waiting to hear whether the cached path is still a regular file.
    CacheCheck(String),
    /// Waiting for the PATH lookup of candidate `i`.
    ProbeWhich(usize),
    /// Waiting to hear whether the path found for candidate `i` is a file.
    ProbeFile(usize, String),
    /// Checking the installed launcher before deciding to install; holds the
    /// pin and the entry script's path.
    ExistsLauncher(String, String),
    /// Checking the installed entry script before deciding to install; holds
    /// the pin and whether the launcher is a file.
    ExistsEntry(String, bool),
    /// Waiting for the installed version of the package.
    QueryVersion(String),
    /// Waiting for the package install to end.
    Installing(String),
    /// The install failed with the error held here; waiting for the
    /// installed version to see whether the pin is met anyway.
    Requery(String, String),
    /// Locating the installed launcher; holds it and the entry script's path.
    LocateLauncher(String, String),
    /// Locating the installed entry script; holds the launcher and it.
    LocateEntry(String, String),
}

/// The answer to the previous request.
#[derive(Debug)]
pub enum Event {
    /// Begin a resolution.
    Start,
    /// What the PATH lookup returned.
    Found(Option<String>),
    /// Whether the path asked about is a regular file.
    IsFile(bool),
    /// The installed version of the package, if one is known.
    Version(Option<String>),
    /// How the package install ended.
    Installed(Result<(), String>),
}

/// What the caller is asked to do next.
#[derive(Debug)]
pub enum Op {
    /// Look `name` up on the worktree's PATH; answer with [`Event::Found`].
    Which(String),
    /// Check that the path is a regular file; answer with [`Event::IsFile`].
    CheckFile(String),
    /// Ask for the package's installed version; answer with [`Event::Version`].
    QueryInstalledVersion,
    /// Install `package` at `version`; answer with [`Event::Installed`].
    Install { package: String, version: String },
    /// Resolution is over: the binary's path, or an error message.
    Finish(Result<String, String>),
}

/// One step's output: status notices to report first, then the request.
#[derive(Debug)]
pub struct Step {
    pub notices: Vec<Status>,
    pub op: Op,
}

/// The resolver of one extension instance.
#[derive(Debug)]
pub struct RippleExtension {
    mode: Mode,
    os: Os,
    /// The directory that packages are installed under, or why it is unknown.
    extension_dir: Result<String, String>,
    /// The raw pin read from the manifest, or why the manifest was unreadable.
    manifest_pin: Result<Option<String>, String>,
    /// The last path handed out; re-checked before each reuse.
    cached_binary_path: Option<String>,
    /// The validated pin, once it has been computed.
    required_version: Option<String>,
    phase: Phase,
}

// ---------------------------------------------------------------- models

pub enum PhaseModel {
    Idle,
    CacheCheck(Seq<char>),
    ProbeWhich(nat),
    ProbeFile(nat, Seq<char>),
    ExistsLauncher(Seq<char>, Seq<char>),
    ExistsEntry(Seq<char>, bool),
    QueryVersion(Seq<char>),
    Installing(Seq<char>),
    Requery(Seq<char>, Seq<char>),
    LocateLauncher(Seq<char>, Seq<char>),
    LocateEntry(Seq<char>, Seq<char>),
}

pub enum EventModel {
    Start,
    Found(Option<Seq<char>>),
    IsFile(bool),
    Version(Option<Seq<char>>),
    Installed(Result<(), Seq<char>>),
}

pub enum OpModel {
    Which(Seq<char>),
    CheckFile(Seq<char>),
    QueryInstalledVersion,
    Install(Seq<char>, Seq<char>),
    Finish(Result<Seq<char>, Seq<char>>),
}

pub struct StepModel {
    pub notices: Seq<Status>,
    pub op: OpModel,
}

pub struct ExtModel {
    pub mode: Mode,
    pub os: Os,
    pub extension_dir: Result<Seq<char>, Seq<char>>,
    pub manifest_pin: Result<Option<Seq<char>>, Seq<char>>,
    pub cached: Option<Seq<char>>,
    pub required: Option<Seq<char>>,
    pub phase: PhaseModel,
}

pub open spec fn opt_view(o: Option<String>) -> Option<Seq<char>> {
    match o {
        Some(s) => Some(s@),
        None => None,
    }
}

pub open spec fn res_view(r: Result<String, String>) -> Result<Seq<char>, Seq<char>> {
    match r {
        Ok(s) => Ok(s@),
        Err(e) => Err(e@),
    }
}

impl View for Phase {
    type V = PhaseModel;

    open spec fn view(&self) -> PhaseModel {
        match self {
            Phase::Idle => PhaseModel::Idle,
            Phase::CacheCheck(p) => PhaseModel::CacheCheck(p@),
            Phase::ProbeWhich(i) => PhaseModel::ProbeWhich(*i as nat),
            Phase::ProbeFile(i, p) => PhaseModel::ProbeFile(*i as nat, p@),
            Phase::ExistsLauncher(v, e) => PhaseModel::ExistsLauncher(v@, e@),
            Phase::ExistsEntry(v, l) => PhaseModel::ExistsEntry(v@, *l),
            Phase::QueryVersion(v) => PhaseModel::QueryVersion(v@),
            Phase::Installing(v) => PhaseModel::Installing(v@),
            Phase::Requery(v, e) => PhaseModel::Requery(v@, e@),
            Phase::LocateLauncher(l, e) => PhaseModel::LocateLauncher(l@, e@),
            Phase::LocateEntry(l, e) => PhaseModel::LocateEntry(l@, e@),
        }
    }
}

impl View for Event {
    type V = EventModel;

    open spec fn view(&self) -> EventModel {
        match self {
            Event::Start => EventModel::Start,
            Event::Found(p) => EventModel::Found(opt_view(*p)),
            Event::IsFile(b) => EventModel::IsFile(*b),
            Event::Version(v) => EventModel::Version(opt_view(*v)),
            Event::Installed(r) => EventModel::Installed(
                match r {
                    Ok(_) => Ok(()),
                    Err(e) => Err(e@),
                },
            ),
        }
    }
}

impl View for Op {
    type V = OpModel;

    open spec fn view(&self) -> OpModel {
        match self {
            Op::Which(n) => OpModel::Which(n@),
            Op::CheckFile(p) => OpModel::CheckFile(p@),
            Op::QueryInstalledVersion => OpModel::QueryInstalledVersion,
            Op::Install { package, version } => OpModel::Install(package@, version@),
            Op::Finish(r) => OpModel::Finish(res_view(*r)),
        }
    }
}

impl View for Step {
    type V = StepModel;

    open spec fn view(&self) -> StepModel {
        StepModel { notices: self.notices@, op: self.op@ }
    }
}

impl View for RippleExtension {
    type V = ExtModel;

    closed spec fn view(&self) -> ExtModel {
        ExtModel {
            mode: self.mode,
            os: self.os,
            extension_dir: res_view(self.extension_dir),
            manifest_pin: match self.manifest_pin {
                Ok(p) => Ok(opt_view(p)),
                Err(e) => Err(e@),
            },
            cached: opt_view(self.cached_binary_path),
            required: opt_view(self.required_version),
            phase: self.phase@,
        }
    }
}

// ------------------------------------------------------------ transitions

/// The pin in force: the memoized one, else the manifest's, trimmed and
/// checked; an error message when there is none or it is not exact.
pub open spec fn required_outcome(m: ExtModel) -> Result<Seq<char>, Seq<char>> {
    match m.required {
        Some(v) => Ok(v),
        None => match m.manifest_pin {
            Err(e) => Err(e),
            Ok(raw) => match pin_outcome(
                match raw {
                    Some(r) => Some(trim_of(r)),
                    None => None,
                },
            ) {
                Ok(v) => Ok(v),
                Err(None) => Err(missing_pin_message()),
                Err(Some(p)) => Err(not_exact_message(p)),
            },
        },
    }
}

pub open spec fn finish(m: ExtModel, r: Result<Seq<char>, Seq<char>>) -> (ExtModel, StepModel) {
    (ExtModel { phase: PhaseModel::Idle, ..m }, StepModel { notices: seq![], op: OpModel::Finish(r) })
}

pub open spec fn ask(m: ExtModel, phase: PhaseModel, notices: Seq<Status>, op: OpModel) -> (
    ExtModel,
    StepModel,
) {
    (ExtModel { phase, ..m }, StepModel { notices, op })
}

pub open spec fn locate_prefix() -> Seq<char> {
    "Failed to locate language server binary: "@
}

/// The error when neither installed location holds a file; names both.
pub open spec fn not_installed_message(launcher: Seq<char>, entry: Seq<char>) -> Seq<char> {
    locate_prefix() + "expected a binary at "@ + launcher + " or "@ + entry
}

/// The error when a lookup-only resolution finds nothing.
pub open spec fn not_on_path_message() -> Seq<char> {
    "ripple-language-server not found. Please install it:\nnpm install -g ripple-language-server\nor add it to your project:\nnpm install --save-dev ripple-language-server"@
}

/// The error for an answer that the current phase did not ask for.
pub open spec fn unexpected_message() -> Seq<char> {
    "resolution received an answer it did not ask for"@
}

pub open spec fn package_name() -> Seq<char> {
    "@ripple-ts/language-server"@
}

/// Try PATH candidate `i`, or move on once they are exhausted.
pub open spec fn probe_from(m: ExtModel, i: nat) -> (ExtModel, StepModel) {
    let c = candidate_list(m.mode, m.os);
    if i < c.len() {
        ask(m, PhaseModel::ProbeWhich(i), seq![], OpModel::Which(c[i as int]))
    } else if m.mode == Mode::PathOnly {
        finish(m, Err(not_on_path_message()))
    } else {
        begin_install(m)
    }
}

/// Report the update and ask for the install of pin `v`.
pub open spec fn install(m: ExtModel, v: Seq<char>) -> (ExtModel, StepModel) {
    ask(
        m,
        PhaseModel::Installing(v),
        seq![Status::CheckingForUpdate, Status::Downloading],
        OpModel::Install(package_name(), v),
    )
}

/// Settle the pin, then check what is installed already.
pub open spec fn begin_install(m: ExtModel) -> (ExtModel, StepModel) {
    match required_outcome(m) {
        Err(e) => finish(m, Err(e)),
        Ok(v) => {
            let m2 = ExtModel { required: Some(v), ..m };
            match m.extension_dir {
                Ok(d) => ask(
                    m2,
                    PhaseModel::ExistsLauncher(v, join_spec(d, entry_script_rel())),
                    seq![],
                    OpModel::CheckFile(join_spec(d, launcher_rel(m.os))),
                ),
                Err(_) => install(m2, v),
            }
        },
    }
}

/// Find the installed binary: the launcher first, then the entry script.
pub open spec fn locate(m: ExtModel) -> (ExtModel, StepModel) {
    match m.extension_dir {
        Err(e) => finish(m, Err(locate_prefix() + e)),
        Ok(d) => {
            let l = join_spec(d, launcher_rel(m.os));
            ask(m, PhaseModel::LocateLauncher(l, join_spec(d, entry_script_rel())), seq![], OpModel::CheckFile(l))
        },
    }
}

/// Hand out `p` and remember it.
pub open spec fn found(m: ExtModel, p: Seq<char>) -> (ExtModel, StepModel) {
    finish(ExtModel { cached: Some(p), ..m }, Ok(p))
}

/// The installed version `x` (untrimmed) meets pin `v`.
pub open spec fn meets(x: Option<Seq<char>>, v: Seq<char>) -> bool {
    match x {
        Some(t) => trim_of(t) == v,
        None => false,
    }
}

/// The whole decision procedure: the state and the request that follow
/// state `m` on event `e`.
pub open spec fn next(m: ExtModel, e: EventModel) -> (ExtModel, StepModel) {
    let unexpected = finish(m, Err(unexpected_message()));
    match e {
        EventModel::Start => match m.cached {
            Some(p) => ask(m, PhaseModel::CacheCheck(p), seq![], OpModel::CheckFile(p)),
            None => probe_from(m, 0),
        },
        EventModel::Found(x) => match m.phase {
            PhaseModel::ProbeWhich(i) => match x {
                Some(p) => ask(m, PhaseModel::ProbeFile(i, p), seq![], OpModel::CheckFile(p)),
                None => probe_from(m, i + 1),
            },
            _ => unexpected,
        },
        EventModel::IsFile(b) => match m.phase {
            PhaseModel::CacheCheck(p) => if b {
                finish(m, Ok(p))
            } else {
                probe_from(m, 0)
            },
            PhaseModel::ProbeFile(i, p) => if b {
                found(m, p)
            } else {
                probe_from(m, i + 1)
            },
            PhaseModel::ExistsLauncher(v, en) => ask(
                m,
                PhaseModel::ExistsEntry(v, b),
                seq![],
                OpModel::CheckFile(en),
            ),
            PhaseModel::ExistsEntry(v, l) => if l || b {
                ask(m, PhaseModel::QueryVersion(v), seq![], OpModel::QueryInstalledVersion)
            } else {
                install(m, v)
            },
            PhaseModel::LocateLauncher(l, en) => if b {
                found(m, l)
            } else {
                ask(m, PhaseModel::LocateEntry(l, en), seq![], OpModel::CheckFile(en))
            },
            PhaseModel::LocateEntry(l, en) => if b {
                found(m, en)
            } else {
                finish(m, Err(not_installed_message(l, en)))
            },
            _ => unexpected,
        },
        EventModel::Version(x) => match m.phase {
            PhaseModel::QueryVersion(v) => if meets(x, v) {
                locate(m)
            } else {
                install(m, v)
            },
            PhaseModel::Requery(v, err) => if meets(x, v) {
                locate(m)
            } else {
                finish(m, Err(err))
            },
            _ => unexpected,
        },
        EventModel::Installed(r) => match m.phase {
            PhaseModel::Installing(v) => match r {
                Ok(_) => locate(m),
                Err(err) => ask(m, PhaseModel::Requery(v, err), seq![], OpModel::QueryInstalledVersion),
            },
            _ => unexpected,
        },
    }
}

/// Borrows the text of an optional string.
fn opt_str(x: &Option<String>) -> (r: Option<&str>)
    ensures
        match r {
            Some(t) => x.is_some() && t@ == x.unwrap()@,
            None => x.is_none(),
        },
{
    match x {
        Some(s) => Some(s.as_str()),
        None => None,
    }
}

impl RippleExtension {
    /// A resolver with nothing cached, for `mode` on `os`, installing under
    /// `extension_dir`, with the pin `manifest_pin` read from the manifest.
    pub fn new(
        mode: Mode,
        os: Os,
        extension_dir: Result<String, String>,
        manifest_pin: Result<Option<String>, String>,
    ) -> (r: Self)
        ensures
            well_formed(r@),
            r@ == (ExtModel {
                mode,
                os,
                extension_dir: res_view(extension_dir),
                manifest_pin: match manifest_pin {
                    Ok(p) => Ok(opt_view(p)),
                    Err(e) => Err(e@),
                },
                cached: None,
                required: None,
                phase: PhaseModel::Idle,
            }),
    {
        RippleExtension {
            mode,
            os,
            extension_dir,
            manifest_pin,
            cached_binary_path: None,
            required_version: None,
            phase: Phase::Idle,
        }
    }

    /// The last path handed out, if any.
    pub fn cached_binary_path(&self) -> (r: Option<String>)
        ensures
            opt_view(r) == self@.cached,
    {
        match &self.cached_binary_path {
            Some(p) => Some(p.clone()),
            None => None,
        }
    }

    /// The validated pin, once it has been computed.
    pub fn pinned_version(&self) -> (r: Option<String>)
        ensures
            opt_view(r) == self@.required,
    {
        match &self.required_version {
            Some(v) => Some(v.clone()),
            None => None,
        }
    }

    /// No resolution is in progress.
    pub fn is_idle(&self) -> (r: bool)
        ensures
            r == (self@.phase is Idle),
    {
        match self.phase {
            Phase::Idle => true,
            _ => false,
        }
    }

    /// Tells whether `spec` is exactly three dot-separated runs of ASCII digits.
    pub fn is_exact_semver(spec: &str) -> (r: bool)
        ensures
            r == is_exact_version(spec@),
    {
        let n = spec.unicode_len();
        if n == 0 {
            return false;
        }
        let mut dots: usize = 0;
        let mut i: usize = 0;
        while i < n
            invariant
                n == spec@.len(),
                0 <= i <= n,
                dots == dot_count(spec@.subrange(0, i as int)),
                dots <= i,
                forall|k: int| 0 <= k < i ==> is_digit(#[trigger] spec@[k]) || spec@[k] == '.',
                i > 0 ==> is_digit(spec@[0]),
                forall|k: int| 0 <= k < i - 1 ==> !(#[trigger] spec@[k] == '.' && spec@[k + 1] == '.'),
            decreases n - i,
        {
            let c = spec.get_char(i);
            let ghost prefix = spec@.subrange(0, i as int);
            assert(spec@.subrange(0, i + 1).drop_last() =~= prefix);
            if c == '.' {
                if i == 0 {
                    return false;
                }
                if spec.get_char(i - 1) == '.' {
                    return false;
                }
                dots = dots + 1;
            } else if !('0' <= c && c <= '9') {
                return false;
            }
            i = i + 1;
        }
        assert(spec@.subrange(0, n as int) =~= spec@);
        dots == 2 && spec.get_char(n - 1) != '.'
    }

    /// An installed binary exists when either installed location is a file.
    pub fn binary_exists(launcher_is_file: bool, entry_is_file: bool) -> (r: bool)
        ensures
            r == (launcher_is_file || entry_is_file),
    {
        launcher_is_file || entry_is_file
    }

    /// An install is due unless a binary exists and the installed version,
    /// once trimmed, is the pin.
    pub fn should_install_or_update(
        binary_exists: bool,
        installed_version: Option<&str>,
        required_version: &str,
    ) -> (r: bool)
        ensures
            r == !(binary_exists && meets(
                match installed_version {
                    Some(t) => Some(t@),
                    None => None,
                },
                required_version@,
            )),
    {
        if !binary_exists {
            return true;
        }
        match installed_version {
            Some(t) => {
                let trimmed = trim(t);
                !(trimmed == String::from_str(required_version))
            },
            None => true,
        }
    }

    /// The pin in force, memoized after the first success.
    pub fn required_version(&mut self) -> (r: Result<String, String>)
        ensures
            res_view(r) == required_outcome(old(self)@),
            final(self)@ == (ExtModel {
                required: match res_view(r) {
                    Ok(v) => Some(v),
                    Err(_) => old(self)@.required,
                },
                ..old(self)@
            }),
    {
        if let Some(v) = &self.required_version {
            return Ok(v.clone());
        }
        let checked = match &self.manifest_pin {
            Err(e) => return Err(e.clone()),
            Ok(None) => validate_pin(None),
            Ok(Some(raw)) => {
                let t = trim(raw.as_str());
                validate_pin(Some(t.as_str()))
            },
        };
        match checked {
            Ok(v) => {
                self.required_version = Some(v.clone());
                Ok(v)
            },
            Err(e) => Err(e.message()),
        }
    }

    fn finish_with(&mut self, r: Result<String, String>) -> (s: Step)
        ensures
            (final(self)@, s@) == finish(old(self)@, res_view(r)),
    {
        self.phase = Phase::Idle;
        let s = Step { notices: Vec::new(), op: Op::Finish(r) };
        assert(s@.notices =~= seq![]);
        s
    }

    fn ask_for(&mut self, phase: Phase, notices: Vec<Status>, op: Op) -> (s: Step)
        ensures
            (final(self)@, s@) == ask(old(self)@, phase@, notices@, op@),
    {
        self.phase = phase;
        Step { notices, op }
    }

    fn found_path(&mut self, p: String) -> (s: Step)
        ensures
            (final(self)@, s@) == found(old(self)@, p@),
    {
        self.cached_binary_path = Some(p.clone());
        self.finish_with(Ok(p))
    }

    fn install_step(&mut self, v: String) -> (s: Step)
        ensures
            (final(self)@, s@) == install(old(self)@, v@),
    {
        let mut notices: Vec<Status> = Vec::new();
        notices.push(Status::CheckingForUpdate);
        notices.push(Status::Downloading);
        assert(notices@ =~= seq![Status::CheckingForUpdate, Status::Downloading]);
        let package = String::from_str("@ripple-ts/language-server");
        let op = Op::Install { package, version: v.clone() };
        self.ask_for(Phase::Installing(v), notices, op)
    }

    fn locate_step(&mut self) -> (s: Step)
        ensures
            (final(self)@, s@) == locate(old(self)@),
    {
        match &self.extension_dir {
            Err(e) => {
                let m = String::from_str("Failed to locate language server binary: ").concat(e.as_str());
                self.finish_with(Err(m))
            },
            Ok(d) => {
                let l = installed_launcher_path(d.as_str(), self.os);
                let en = installed_entry_script_path(d.as_str());
                let op = Op::CheckFile(l.clone());
                self.ask_for(Phase::LocateLauncher(l, en), Vec::new(), op)
            },
        }
    }

    fn begin_install_step(&mut self) -> (s: Step)
        ensures
            (final(self)@, s@) == begin_install(old(self)@),
    {
        match self.required_version() {
            Err(e) => self.finish_with(Err(e)),
            Ok(v) => match &self.extension_dir {
                Ok(d) => {
                    let l = installed_launcher_path(d.as_str(), self.os);
                    let en = installed_entry_script_path(d.as_str());
                    self.ask_for(Phase::ExistsLauncher(v, en), Vec::new(), Op::CheckFile(l))
                },
                Err(_) => self.install_step(v),
            },
        }
    }

    fn probe_step(&mut self, i: usize) -> (s: Step)
        ensures
            (final(self)@, s@) == probe_from(old(self)@, i as nat),
    {
        let cands = probe_candidates(self.mode, self.os);
        if i < cands.len() {
            let name = cands[i].clone();
            self.ask_for(Phase::ProbeWhich(i), Vec::new(), Op::Which(name))
        } else if self.mode == Mode::PathOnly {
            let m = String::from_str(
                "ripple-language-server not found. Please install it:\nnpm install -g ripple-language-server\nor add it to your project:\nnpm install --save-dev ripple-language-server",
            );
            self.finish_with(Err(m))
        } else {
            self.begin_install_step()
        }
    }

    /// Moves past candidate `i`.
    fn probe_after(&mut self, i: usize) -> (s: Step)
        ensures
            (final(self)@, s@) == probe_from(old(self)@, i as nat + 1),
    {
        let n = probe_candidates(self.mode, self.os).len();
        if i < n {
            self.probe_step(i + 1)
        } else {
            self.probe_step(n)
        }
    }

    fn unexpected_step(&mut self) -> (s: Step)
        ensures
            (final(self)@, s@) == finish(old(self)@, Err(unexpected_message())),
    {
        self.finish_with(Err(String::from_str("resolution received an answer it did not ask for")))
    }

    /// Takes the answer to the previous request and returns the next one.
    pub fn step(&mut self, event: Event) -> (s: Step)
        requires
            well_formed(old(self)@),
        ensures
            (final(self)@, s@) == next(old(self)@, event@),
            well_formed(final(self)@),
    {
        let mut phase = Phase::Idle;
        std::mem::swap(&mut phase, &mut self.phase);
        match event {
            Event::Start => {
                self.phase = phase;
                match &self.cached_binary_path {
                    Some(p) => {
                        let checked = p.clone();
                        let asked = p.clone();
                        self.ask_for(Phase::CacheCheck(checked), Vec::new(), Op::CheckFile(asked))
                    },
                    None => self.probe_step(0),
                }
            },
            Event::Found(x) => match phase {
                Phase::ProbeWhich(i) => match x {
                    Some(p) => {
                        let op = Op::CheckFile(p.clone());
                        self.ask_for(Phase::ProbeFile(i, p), Vec::new(), op)
                    },
                    None => self.probe_after(i),
                },
                other => {
                    self.phase = other;
                    self.unexpected_step()
                },
            },
            Event::IsFile(b) => match phase {
                Phase::CacheCheck(p) => if b {
                    self.finish_with(Ok(p))
                } else {
                    self.probe_step(0)
                },
                Phase::ProbeFile(i, p) => if b {
                    self.found_path(p)
                } else {
                    self.probe_after(i)
                },
                Phase::ExistsLauncher(v, en) => {
                    self.ask_for(Phase::ExistsEntry(v, b), Vec::new(), Op::CheckFile(en))
                },
                Phase::ExistsEntry(v, l) => if Self::binary_exists(l, b) {
                    self.ask_for(Phase::QueryVersion(v), Vec::new(), Op::QueryInstalledVersion)
                } else {
                    self.install_step(v)
                },
                Phase::LocateLauncher(l, en) => if b {
                    self.found_path(l)
                } else {
                    let op = Op::CheckFile(en.clone());
                    self.ask_for(Phase::LocateEntry(l, en), Vec::new(), op)
                },
                Phase::LocateEntry(l, en) => if b {
                    self.found_path(en)
                } else {
                    let m = String::from_str("Failed to locate language server binary: ").concat(
                        "expected a binary at ",
                    ).concat(l.as_str()).concat(" or ").concat(en.as_str());
                    self.finish_with(Err(m))
                },
                other => {
                    self.phase = other;
                    self.unexpected_step()
                },
            },
            Event::Version(x) => match phase {
                Phase::QueryVersion(v) => {
                    let due = Self::should_install_or_update(true, opt_str(&x), v.as_str());
                    if !due {
                        self.locate_step()
                    } else {
                        self.install_step(v)
                    }
                },
                Phase::Requery(v, err) => {
                    let due = Self::should_install_or_update(true, opt_str(&x), v.as_str());
                    if !due {
                        self.locate_step()
                    } else {
                        self.finish_with(Err(err))
                    }
                },
                other => {
                    self.phase = other;
                    self.unexpected_step()
                },
            },
            Event::Installed(r) => match phase {
                Phase::Installing(v) => match r {
                    Ok(_) => self.locate_step(),
                    Err(err) => self.ask_for(
                        Phase::Requery(v, err),
                        Vec::new(),
                        Op::QueryInstalledVersion,
                    ),
                },
                other => {
                    self.phase = other;
                    self.unexpected_step()
                },
            },
        }
    }
}

} // verus!

verus! {

/// The phase's data agrees with the state: a cache check is about the
/// cached path.
pub open spec fn well_formed(m: ExtModel) -> bool {
    match m.phase {
        PhaseModel::CacheCheck(p) => m.cached == Some(p),
        _ => true,
    }
}

pub open spec fn finishes_with(s: StepModel, p: Seq<char>) -> bool {
    s.op == OpModel::Finish(Ok(p))
}

/// Every step keeps the state well formed.
pub proof fn lemma_next_well_formed(m: ExtModel, e: EventModel)
    requires
        well_formed(m),
    ensures
        well_formed(next(m, e).0),
{
}

/// A cached path that is no longer a regular file is never handed out:
/// resolution goes on to the PATH candidates instead.
pub proof fn lemma_stale_cache_falls_through(m: ExtModel, p: Seq<char>)
    requires
        m.cached == Some(p),
    ensures
        next(m, EventModel::Start).1.op == OpModel::CheckFile(p),
        ({
            let m1 = next(m, EventModel::Start).0;
            let (m2, s2) = next(m1, EventModel::IsFile(false));
            &&& (m2, s2) == probe_from(m1, 0)
            &&& s2.op == OpModel::Which(candidate_list(m.mode, m.os)[0])
        }),
{
}

/// Once a resolution hands out a path, the next resolution, with that path
/// still a regular file, hands it out again at once: it asks for nothing but
/// that file check, and so installs nothing.
pub proof fn lemma_resolution_idempotent(m: ExtModel, e: EventModel, p: Seq<char>)
    requires
        well_formed(m),
        finishes_with(next(m, e).1, p),
    ensures
        ({
            let m1 = next(m, e).0;
            let (m2, s2) = next(m1, EventModel::Start);
            let (m3, s3) = next(m2, EventModel::IsFile(true));
            &&& m1.cached == Some(p)
            &&& s2.notices.len() == 0
            &&& s2.op == OpModel::CheckFile(p)
            &&& finishes_with(s3, p)
            &&& m3.cached == Some(p)
        }),
{
}

/// A failed install whose requirement turns out to be met anyway is not an
/// error: resolution goes on to locate the installed binary, and returns the
/// launcher when it is there.
pub proof fn lemma_install_failure_self_heals(
    m: ExtModel,
    v: Seq<char>,
    err: Seq<char>,
    installed: Seq<char>,
    d: Seq<char>,
)
    requires
        m.phase == PhaseModel::Installing(v),
        trim_of(installed) == v,
        m.extension_dir == Ok::<Seq<char>, Seq<char>>(d),
    ensures
        ({
            let (m1, s1) = next(m, EventModel::Installed(Err(err)));
            let (m2, s2) = next(m1, EventModel::Version(Some(installed)));
            let (m3, s3) = next(m2, EventModel::IsFile(true));
            &&& s1.op == OpModel::QueryInstalledVersion
            &&& s2.op == OpModel::CheckFile(join_spec(d, launcher_rel(m.os)))
            &&& finishes_with(s3, join_spec(d, launcher_rel(m.os)))
        }),
{
}

/// When the requirement is still unmet after a failed install, the install's
/// own error is returned as it is.
pub proof fn lemma_install_failure_passed_through(
    m: ExtModel,
    v: Seq<char>,
    err: Seq<char>,
    installed: Option<Seq<char>>,
)
    requires
        m.phase == PhaseModel::Installing(v),
        !meets(installed, v),
    ensures
        ({
            let m1 = next(m, EventModel::Installed(Err(err))).0;
            next(m1, EventModel::Version(installed)).1.op == OpModel::Finish(Err::<Seq<char>, Seq<char>>(err))
        }),
{
}

} // verus!

verus! {

/// With nothing cached, a regular file found on PATH under the scoped
/// package name is returned after three steps that ask for nothing but the
/// lookup and the file check, and report no install status.
pub proof fn lemma_path_hit_skips_install(m: ExtModel, p: Seq<char>)
    requires
        m.mode == Mode::Full,
        m.os != Os::Windows,
        m.cached.is_none(),
    ensures
        ({
            let (m1, s1) = next(m, EventModel::Start);
            let (m2, s2) = next(m1, EventModel::Found(Some(p)));
            let (m3, s3) = next(m2, EventModel::IsFile(true));
            &&& s1.op == OpModel::Which(package_name())
            &&& s1.notices.len() == 0
            &&& s2.op == OpModel::CheckFile(p)
            &&& s2.notices.len() == 0
            &&& finishes_with(s3, p)
            &&& m3.cached == Some(p)
        }),
{
}

} // verus!

verus! {

/// With no pin in the manifest, an install-capable resolution that reaches
/// the install stage ends with the message asking for the pin, and installs
/// nothing.
pub proof fn lemma_missing_pin_never_installs(m: ExtModel)
    requires
        m.required.is_none(),
        m.manifest_pin == Ok::<Option<Seq<char>>, Seq<char>>(None),
    ensures
        begin_install(m).1.op == OpModel::Finish(Err::<Seq<char>, Seq<char>>(missing_pin_message())),
        begin_install(m).1.notices.len() == 0,
{
}

} // verus!

verus! {

/// Candidate `k` is found on PATH (`which`) at a regular file (`is_file`).
pub open spec fn probe_hit(
    c: Seq<Seq<char>>,
    which: spec_fn(Seq<char>) -> Option<Seq<char>>,
    is_file: spec_fn(Seq<char>) -> bool,
    k: int,
) -> bool {
    match which(c[k]) {
        Some(p) => is_file(p),
        None => false,
    }
}

/// The first candidate from `i` on that is a hit.
pub open spec fn first_hit(
    c: Seq<Seq<char>>,
    which: spec_fn(Seq<char>) -> Option<Seq<char>>,
    is_file: spec_fn(Seq<char>) -> bool,
    i: int,
) -> Option<int>
    decreases c.len() - i,
{
    if i < 0 || i >= c.len() {
        None
    } else if probe_hit(c, which, is_file, i) {
        Some(i)
    } else {
        first_hit(c, which, is_file, i as int + 1)
    }
}

/// Runs at most `fuel` probe steps from `(m, s)`, answering PATH lookups
/// with `which` and file checks with `is_file`; gives the state and step
/// where the probe stops, and the names looked up, in order.
pub open spec fn probe_run(
    m: ExtModel,
    s: StepModel,
    which: spec_fn(Seq<char>) -> Option<Seq<char>>,
    is_file: spec_fn(Seq<char>) -> bool,
    fuel: nat,
) -> (ExtModel, StepModel, Seq<Seq<char>>)
    decreases fuel,
{
    if fuel == 0 {
        (m, s, seq![])
    } else {
        match m.phase {
            PhaseModel::ProbeWhich(_) => match s.op {
                OpModel::Which(n) => {
                    let (m1, s1) = next(m, EventModel::Found(which(n)));
                    let (mf, sf, asked) = probe_run(m1, s1, which, is_file, (fuel - 1) as nat);
                    (mf, sf, seq![n] + asked)
                },
                _ => (m, s, seq![]),
            },
            PhaseModel::ProbeFile(_, _) => match s.op {
                OpModel::CheckFile(p) => {
                    let (m1, s1) = next(m, EventModel::IsFile(is_file(p)));
                    probe_run(m1, s1, which, is_file, (fuel - 1) as nat)
                },
                _ => (m, s, seq![]),
            },
            _ => (m, s, seq![]),
        }
    }
}

proof fn lemma_first_hit_range(
    c: Seq<Seq<char>>,
    which: spec_fn(Seq<char>) -> Option<Seq<char>>,
    is_file: spec_fn(Seq<char>) -> bool,
    i: int,
)
    ensures
        first_hit(c, which, is_file, i) matches Some(k) ==> 0 <= i <= k < c.len(),
    decreases c.len() - i,
{
    if 0 <= i < c.len() && !probe_hit(c, which, is_file, i) {
        lemma_first_hit_range(c, which, is_file, i + 1);
    }
}

proof fn lemma_which_answer(m: ExtModel, i: nat, x: Option<Seq<char>>)
    requires
        m.phase == PhaseModel::ProbeWhich(i),
    ensures
        next(m, EventModel::Found(x)) == match x {
            Some(p) => ask(m, PhaseModel::ProbeFile(i, p), seq![], OpModel::CheckFile(p)),
            None => probe_from(m, i + 1),
        },
{
}

proof fn lemma_file_answer(m: ExtModel, i: nat, p: Seq<char>, b: bool)
    requires
        m.phase == PhaseModel::ProbeFile(i, p),
    ensures
        next(m, EventModel::IsFile(b)) == if b {
            found(m, p)
        } else {
            probe_from(m, i + 1)
        },
{
}

/// `probe_from` reads only the fixed fields of the state, not its phase.
proof fn lemma_probe_from_ignores_phase(m: ExtModel, ph: PhaseModel, i: nat)
    ensures
        probe_from(ExtModel { phase: ph, ..m }, i) == probe_from(m, i),
{
    assert(ExtModel { phase: PhaseModel::Idle, ..ExtModel { phase: ph, ..m } } == ExtModel {
        phase: PhaseModel::Idle,
        ..m
    });
}

#[verifier::rlimit(50)]
proof fn lemma_probe_run_from(
    m: ExtModel,
    which: spec_fn(Seq<char>) -> Option<Seq<char>>,
    is_file: spec_fn(Seq<char>) -> bool,
    i: nat,
    fuel: nat,
)
    requires
        i <= candidate_list(m.mode, m.os).len(),
        fuel >= 2 * (candidate_list(m.mode, m.os).len() - i),
    ensures
        ({
            let c = candidate_list(m.mode, m.os);
            let (m1, s1) = probe_from(m, i);
            let (mf, sf, asked) = probe_run(m1, s1, which, is_file, fuel);
            match first_hit(c, which, is_file, i as int) {
                Some(k) => {
                    &&& sf.op == OpModel::Finish(Ok::<Seq<char>, Seq<char>>(which(c[k]).unwrap()))
                    &&& mf.cached == Some(which(c[k]).unwrap())
                    &&& asked == c.subrange(i as int, k + 1)
                },
                None => {
                    &&& (mf, sf) == probe_from(m, c.len())
                    &&& asked == c.subrange(i as int, c.len() as int)
                },
            }
        }),
    decreases candidate_list(m.mode, m.os).len() - i,
{
    let c = candidate_list(m.mode, m.os);
    if i < c.len() {
        let n = c[i as int];
        let m1 = ExtModel { phase: PhaseModel::ProbeWhich(i), ..m };
        let s1 = StepModel { notices: seq![], op: OpModel::Which(n) };
        assert(probe_from(m, i) == (m1, s1));
        lemma_which_answer(m1, i, which(n));
        lemma_first_hit_range(c, which, is_file, i as int + 1);
        let (m2, s2) = next(m1, EventModel::Found(which(n)));
        lemma_probe_from_ignores_phase(m, PhaseModel::ProbeWhich(i), i + 1);
        lemma_probe_from_ignores_phase(m, PhaseModel::ProbeWhich(i), c.len());
        match which(n) {
            Some(p) => {
                assert(m2 == ExtModel { phase: PhaseModel::ProbeFile(i, p), ..m });
                lemma_file_answer(m2, i, p, is_file(p));
                let (m3, s3) = next(m2, EventModel::IsFile(is_file(p)));
                let rest = probe_run(m3, s3, which, is_file, (fuel - 2) as nat);
                assert(probe_run(m2, s2, which, is_file, (fuel - 1) as nat) == rest);
                assert(probe_run(m1, s1, which, is_file, fuel) == (rest.0, rest.1, seq![n] + rest.2));
                if is_file(p) {
                    assert(m3.phase == PhaseModel::Idle);
                    assert(rest == (m3, s3, Seq::<Seq<char>>::empty()));
                    assert(c.subrange(i as int, i as int + 1) =~= seq![n]);
                } else {
                    lemma_probe_from_ignores_phase(m, PhaseModel::ProbeFile(i, p), i + 1);
                    lemma_probe_from_ignores_phase(m, PhaseModel::ProbeFile(i, p), c.len());
                    lemma_probe_run_from(m2, which, is_file, i + 1, (fuel - 2) as nat);
                    match first_hit(c, which, is_file, i as int + 1) {
                        Some(k) => assert(seq![n] + c.subrange(i as int + 1, k + 1) =~= c.subrange(i as int, k + 1)),
                        None => assert(seq![n] + c.subrange(i as int + 1, c.len() as int) =~= c.subrange(
                            i as int,
                            c.len() as int,
                        )),
                    }
                }
            },
            None => {
                let rest = probe_run(m2, s2, which, is_file, (fuel - 1) as nat);
                assert(probe_run(m1, s1, which, is_file, fuel) == (rest.0, rest.1, seq![n] + rest.2));
                lemma_probe_run_from(m1, which, is_file, i + 1, (fuel - 1) as nat);
                match first_hit(c, which, is_file, i as int + 1) {
                    Some(k) => assert(seq![n] + c.subrange(i as int + 1, k + 1) =~= c.subrange(i as int, k + 1)),
                    None => assert(seq![n] + c.subrange(i as int + 1, c.len() as int) =~= c.subrange(
                        i as int,
                        c.len() as int,
                    )),
                }
            },
        }
    } else {
        assert(c.subrange(i as int, c.len() as int) =~= Seq::<Seq<char>>::empty());
        let (m1, s1) = probe_from(m, i);
        assert(!(m1.phase is ProbeWhich) && !(m1.phase is ProbeFile));
    }
}

/// With nothing cached, a resolution looks the candidates up in their
/// platform order and stops at the first one found on PATH at a regular
/// file, which it returns, having looked up exactly the candidates up to it;
/// when there is none it has looked up every candidate and goes on exactly
/// as after an exhausted probe.
pub proof fn lemma_probe_returns_first_hit(
    m: ExtModel,
    which: spec_fn(Seq<char>) -> Option<Seq<char>>,
    is_file: spec_fn(Seq<char>) -> bool,
)
    requires
        m.cached.is_none(),
    ensures
        ({
            let c = candidate_list(m.mode, m.os);
            let (m1, s1) = next(m, EventModel::Start);
            let (mf, sf, asked) = probe_run(m1, s1, which, is_file, (2 * c.len()) as nat);
            match first_hit(c, which, is_file, 0) {
                Some(k) => {
                    &&& sf.op == OpModel::Finish(Ok::<Seq<char>, Seq<char>>(which(c[k]).unwrap()))
                    &&& mf.cached == Some(which(c[k]).unwrap())
                    &&& asked == c.subrange(0, k + 1)
                },
                None => {
                    &&& (mf, sf) == probe_from(m, c.len())
                    &&& asked == c
                },
            }
        }),
{
    let c = candidate_list(m.mode, m.os);
    lemma_probe_run_from(m, which, is_file, 0, (2 * c.len()) as nat);
    assert(c.subrange(0, c.len() as int) =~= c);
}

} // verus!
