use vstd::prelude::*;

verus! {

/// Where a runtime wrapper is looked for when no path is given, in order.
pub open spec fn default_wrapper_paths() -> Seq<Seq<char>> {
    seq!["~/.alphadep/runtime"@, ".alphadep/runtime"@, "/bin/alphadep-runtime"@]
}

/// The paths to try, in order: the hint first, when there is one.
pub open spec fn candidate_paths(hint: Option<Seq<char>>) -> Seq<Seq<char>> {
    match hint {
        Some(h) => seq![h] + default_wrapper_paths(),
        None => default_wrapper_paths(),
    }
}

/// The flag that asks a runtime wrapper which protocol it speaks.
pub open spec fn compatibility_flag() -> Seq<char> {
    "--cli-api-compatibility"@
}

pub fn wrapper_candidates(hint: Option<String>) -> (r: Vec<String>)
    ensures
        r.deep_view() == candidate_paths(hint.deep_view()),
{
    let mut r: Vec<String> = Vec::new();
    match hint {
        Some(h) => r.push(h),
        None => {},
    }
    r.push(String::from_str("~/.alphadep/runtime"));
    r.push(String::from_str(".alphadep/runtime"));
    r.push(String::from_str("/bin/alphadep-runtime"));
    assert(r.deep_view() =~= candidate_paths(hint.deep_view()));
    r
}

/// The command line that probes the wrapper at `path`.
pub fn probe_command(path: &String) -> (r: String)
    ensures
        r@ == path@ + " "@ + compatibility_flag(),
{
    let mut r = path.clone();
    r.append(" ");
    r.append("--cli-api-compatibility");
    r
}

/// Whether `bytes` are valid UTF-8.
pub uninterp spec fn is_utf8(bytes: Seq<u8>) -> bool;

/// Relies on std::str::from_utf8: it succeeds exactly on valid UTF-8.
#[verifier::external_body]
fn valid_utf8(bytes: &[u8]) -> (r: bool)
    ensures
        r == is_utf8(bytes@),
{
    std::str::from_utf8(bytes).is_ok()
}

/// The big-endian number held by four bytes.
pub open spec fn be_u32(b: Seq<u8>) -> int {
    b[0] as int * 0x1000000 + b[1] as int * 0x10000 + b[2] as int * 0x100 + b[3] as int
}

/// A reply in the wrapper protocol: a four-byte big-endian length, then at
/// least that many bytes, of which that many are UTF-8 text; what follows
/// the text is left unread.
pub open spec fn well_formed_response(data: Seq<u8>) -> bool {
    &&& data.len() >= 4
    &&& be_u32(data) <= data.len() - 4
    &&& is_utf8(data.subrange(4, 4 + be_u32(data)))
}

pub fn probe_response_ok(data: &Vec<u8>) -> (r: bool)
    ensures
        r == well_formed_response(data@),
{
    if data.len() < 4 {
        return false;
    }
    let n: u64 = data[0] as u64 * 0x1000000 + data[1] as u64 * 0x10000 + data[2] as u64 * 0x100
        + data[3] as u64;
    if n > (data.len() - 4) as u64 {
        return false;
    }
    let (_, rest) = data.as_slice().split_at(4);
    let (text, _) = rest.split_at(n as usize);
    assert(text@ =~= data@.subrange(4, 4 + be_u32(data@)));
    valid_utf8(text)
}

/// What the locator waits for.
#[derive(Debug, Clone, Copy, PartialEq, Eq, Structural)]
pub enum LocateStage {
    /// The metadata of the current candidate.
    AwaitStat,
    /// The first reply of the current candidate to the probe.
    AwaitProbe,
    /// Nothing: the search is over.
    Finished,
}

/// What the remote side reported for the current check.
#[derive(Debug, Clone)]
pub enum LocateEvent {
    /// The candidate exists; `is_dir` tells whether it is a directory.
    Stat { is_dir: bool },
    /// The candidate could not be looked up.
    StatFailed,
    /// The first chunk that the probe wrote.
    Response { data: Vec<u8> },
    /// The probe wrote nothing, or could not be run.
    NoResponse,
}

/// What the caller does next.
#[derive(Debug, Clone)]
pub enum LocateAction {
    /// Look up the metadata of this path.
    Stat { path: String },
    /// Run this command on a fresh channel and report its first reply.
    Probe { command: String },
    /// This path holds a compatible wrapper.
    Found { path: String },
    /// No candidate holds a compatible wrapper.
    Exhausted,
}

/// Tries the candidate paths in order; a candidate is accepted once it is no
/// directory and it answers the probe in the wrapper protocol.
pub struct Locator {
    pub candidates: Vec<String>,
    pub index: usize,
    pub stage: LocateStage,
    pub found: bool,
}

impl Locator {
    pub open spec fn well_formed(&self) -> bool {
        &&& self.index <= self.candidates.len()
        &&& self.stage != LocateStage::Finished ==> self.index < self.candidates.len() && !self.found
        &&& self.found ==> self.index < self.candidates.len()
    }

    /// A search over the candidates for `hint`, and the first action.
    pub fn new(hint: Option<String>) -> (r: (Locator, LocateAction))
        ensures
            r.0.well_formed(),
            r.0.candidates.deep_view() == candidate_paths(hint.deep_view()),
            r.0.index == 0,
            r.0.stage == LocateStage::AwaitStat,
            !r.0.found,
            r.1 matches LocateAction::Stat { path } && path@ == r.0.candidates.deep_view()[0],
    {
        let candidates = wrapper_candidates(hint);
        assert(candidates.deep_view().len() == candidates@.len());
        let path = candidates[0].clone();
        (Locator { candidates, index: 0, stage: LocateStage::AwaitStat, found: false }, LocateAction::Stat { path })
    }

    /// Moves to the next candidate after the current one failed a check.
    fn advance(&mut self) -> (r: LocateAction)
        requires
            old(self).well_formed(),
            old(self).stage != LocateStage::Finished,
        ensures
            final(self).well_formed(),
            final(self).candidates == old(self).candidates,
            !final(self).found,
            Self::moved_on(*old(self), *final(self), r),
    {
        self.index = self.index + 1;
        if self.index < self.candidates.len() {
            self.stage = LocateStage::AwaitStat;
            LocateAction::Stat { path: self.candidates[self.index].clone() }
        } else {
            self.stage = LocateStage::Finished;
            LocateAction::Exhausted
        }
    }

    /// Whether `event` passes the check that `stage` waits for.
    pub open spec fn passes(stage: LocateStage, event: LocateEvent) -> bool {
        match (stage, event) {
            (LocateStage::AwaitStat, LocateEvent::Stat { is_dir }) => !is_dir,
            (LocateStage::AwaitProbe, LocateEvent::Response { data }) => well_formed_response(data@),
            _ => false,
        }
    }

    /// `new` is the search `old` moved on to its next candidate, with `r`
    /// the action that goes with it.
    pub open spec fn moved_on(old: Locator, new: Locator, r: LocateAction) -> bool {
        &&& !new.found
        &&& if old.index + 1 < old.candidates.len() {
            &&& new.index == old.index + 1
            &&& new.stage == LocateStage::AwaitStat
            &&& r matches LocateAction::Stat { path }
            &&& path@ == old.candidates.deep_view()[old.index + 1]
        } else {
            &&& new.stage == LocateStage::Finished
            &&& r is Exhausted
        }
    }

    /// The action that a finished search repeats.
    pub open spec fn outcome(&self, r: LocateAction) -> bool {
        if self.found {
            r matches LocateAction::Found { path } && path@ == self.candidates.deep_view()[self.index as int]
        } else {
            r is Exhausted
        }
    }

    /// Takes the outcome of the last check and says what to do next. A
    /// directory, a failed lookup or a malformed reply moves on to the next
    /// candidate; a well-formed reply ends the search there, and nothing
    /// after that candidate is ever checked.
    pub fn next(&mut self, event: LocateEvent) -> (r: LocateAction)
        requires
            old(self).well_formed(),
        ensures
            final(self).well_formed(),
            final(self).candidates == old(self).candidates,
            old(self).stage == LocateStage::Finished ==> *final(self) == *old(self) && old(
                self,
            ).outcome(r),
            old(self).stage == LocateStage::AwaitStat && Self::passes(old(self).stage, event) ==> {
                &&& final(self).index == old(self).index
                &&& final(self).stage == LocateStage::AwaitProbe
                &&& r matches LocateAction::Probe { command }
                &&& command@ == old(self).candidates.deep_view()[old(self).index as int] + " "@
                    + compatibility_flag()
            },
            old(self).stage == LocateStage::AwaitProbe && Self::passes(old(self).stage, event) ==> {
                &&& final(self).index == old(self).index
                &&& final(self).stage == LocateStage::Finished
                &&& final(self).found
                &&& final(self).outcome(r)
            },
            old(self).stage != LocateStage::Finished && !Self::passes(old(self).stage, event)
                ==> Self::moved_on(*old(self), *final(self), r),
    {
        match self.stage {
            LocateStage::Finished => {
                if self.found {
                    LocateAction::Found { path: self.candidates[self.index].clone() }
                } else {
                    LocateAction::Exhausted
                }
            },
            LocateStage::AwaitStat => {
                match event {
                    LocateEvent::Stat { is_dir: false } => {
                        self.stage = LocateStage::AwaitProbe;
                        LocateAction::Probe { command: probe_command(&self.candidates[self.index]) }
                    },
                    _ => self.advance(),
                }
            },
            LocateStage::AwaitProbe => {
                match event {
                    LocateEvent::Response { data } => {
                        if probe_response_ok(&data) {
                            self.stage = LocateStage::Finished;
                            self.found = true;
                            LocateAction::Found { path: self.candidates[self.index].clone() }
                        } else {
                            self.advance()
                        }
                    },
                    _ => self.advance(),
                }
            },
        }
    }
}

} // verus!
