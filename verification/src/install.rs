use vstd::prelude::*;

verus! {

/// The names of the binaries that a release ships: the CLI and its shim,
/// with the `.exe` suffix on Windows.
pub open spec fn spec_binary_names(windows: bool) -> Seq<Seq<char>> {
    if windows {
        seq!["proto.exe"@, "proto-shim.exe"@]
    } else {
        seq!["proto"@, "proto-shim"@]
    }
}

/// Lists the binaries that a release ships, in the order they are installed.
pub fn binary_names(windows: bool) -> (r: Vec<String>)
    ensures
        r@.map_values(|s: String| s@) == spec_binary_names(windows),
        r@.len() == 2,
        r@[0]@ == "proto"@ + (if windows { ".exe"@ } else { ""@ }),
        r@[1]@ == "proto-shim"@ + (if windows { ".exe"@ } else { ""@ }),
{
    let mut r: Vec<String> = Vec::new();
    if windows {
        r.push("proto.exe".to_owned());
        r.push("proto-shim.exe".to_owned());
    } else {
        r.push("proto".to_owned());
        r.push("proto-shim".to_owned());
    }
    proof {
        assert(r@.map_values(|s: String| s@) =~= spec_binary_names(windows));
        lemma_binary_names_shape(windows);
        assert(r@[0]@ == r@.map_values(|s: String| s@)[0]);
        assert(r@[1]@ == r@.map_values(|s: String| s@)[1]);
    }
    r
}

/// A directory in which an unpacked binary may be found.
#[derive(Clone, Copy, Debug, PartialEq, Eq, Structural)]
pub enum InputDir {
    /// `<temp>/<file_stem>`: archives that hold a top-level folder.
    Nested,
    /// `<temp>`: archives that hold the binaries directly.
    Unpacked,
}

/// A directory into which binaries are installed.
#[derive(Clone, Copy, Debug, PartialEq, Eq, Structural)]
pub enum OutputDir {
    /// The installation directory.
    Install,
    /// The directory of the running executable.
    CurrentExe,
}

/// The unpacked directories, in the order they are searched.
pub open spec fn spec_input_dir(i: int) -> InputDir {
    if i == 0 { InputDir::Nested } else { InputDir::Unpacked }
}

/// The directories that receive the binaries: always the installation
/// directory, and the running executable's directory as well when asked to
/// relocate it and it is known and differs from the installation directory.
pub open spec fn spec_output_dirs(relocate_current: bool, current_exe_dir_differs: Option<bool>) -> Seq<OutputDir> {
    if relocate_current && current_exe_dir_differs == Some(true) {
        seq![OutputDir::Install, OutputDir::CurrentExe]
    } else {
        seq![OutputDir::Install]
    }
}

/// Chooses the directories that receive the binaries.
/// `current_exe_dir_differs` is `None` when the running executable's
/// directory is unknown, else whether it differs from the installation
/// directory.
pub fn output_dirs(relocate_current: bool, current_exe_dir_differs: Option<bool>) -> (r: Vec<OutputDir>)
    ensures
        r@ == spec_output_dirs(relocate_current, current_exe_dir_differs),
        r@.len() >= 1,
        r@[0] == OutputDir::Install,
        r@.contains(OutputDir::CurrentExe) <==> (relocate_current && current_exe_dir_differs
            == Some(true)),
        !relocate_current ==> r@ == seq![OutputDir::Install],
{
    let mut r: Vec<OutputDir> = Vec::new();
    r.push(OutputDir::Install);
    if relocate_current {
        match current_exe_dir_differs {
            Some(true) => r.push(OutputDir::CurrentExe),
            _ => {},
        }
    }
    proof {
        assert(r@ =~= spec_output_dirs(relocate_current, current_exe_dir_differs));
        lemma_output_dirs_choice(relocate_current, current_exe_dir_differs);
    }
    r
}

/// The installation directory always receives the binaries, first; the
/// running executable's directory receives them only when relocation is
/// asked for and that directory is known to differ; nothing else does, and
/// no directory is listed twice.
pub proof fn lemma_output_dirs_choice(relocate_current: bool, current_exe_dir_differs: Option<bool>)
    ensures
        ({
            let d = spec_output_dirs(relocate_current, current_exe_dir_differs);
            &&& d.len() >= 1 && d[0] == OutputDir::Install
            &&& d.contains(OutputDir::CurrentExe) <==> (relocate_current
                && current_exe_dir_differs == Some(true))
            &&& !relocate_current ==> d == seq![OutputDir::Install]
            &&& current_exe_dir_differs != Some(true) ==> d == seq![OutputDir::Install]
            &&& forall|i: int, j: int| 0 <= i < j < d.len() ==> d[i] != d[j]
        }),
{
    let d = spec_output_dirs(relocate_current, current_exe_dir_differs);
    if relocate_current && current_exe_dir_differs == Some(true) {
        assert(d[1] == OutputDir::CurrentExe);
    } else {
        assert forall|i: int| 0 <= i < d.len() implies d[i] != OutputDir::CurrentExe by {}
    }
}

/// The binaries are the CLI and its shim, in that order, carrying the
/// `.exe` suffix exactly on Windows.
pub proof fn lemma_binary_names_shape(windows: bool)
    ensures
        spec_binary_names(windows).len() == 2,
        spec_binary_names(windows)[0] == "proto"@ + (if windows { ".exe"@ } else { ""@ }),
        spec_binary_names(windows)[1] == "proto-shim"@ + (if windows { ".exe"@ } else { ""@ }),
{
    reveal_strlit("proto");
    reveal_strlit("proto.exe");
    reveal_strlit("proto-shim");
    reveal_strlit("proto-shim.exe");
    reveal_strlit(".exe");
    reveal_strlit("");
    assert(spec_binary_names(windows)[0] =~= "proto"@ + (if windows { ".exe"@ } else { ""@ }));
    assert(spec_binary_names(windows)[1] =~= "proto-shim"@ + (if windows { ".exe"@ } else {
        ""@
    }));
}

/// Whether the installation is recorded as last used: only when something
/// was installed and the relocation directory exists.
pub fn should_record_last_used(installed: bool, relocate_dir_exists: bool) -> (r: bool)
    ensures
        r == (installed && relocate_dir_exists),
{
    installed && relocate_dir_exists
}

/// What the walk waits for.
#[derive(Clone, Copy, Debug, PartialEq, Eq, Structural)]
pub enum Stage {
    /// Whether the current binary exists in the current input directory.
    Input,
    /// Whether the current binary already exists in the current output directory.
    Output,
    /// That the current binary was placed; `replace` when it replaces an
    /// existing one.
    Place { replace: bool },
    /// Nothing: every binary has been looked for in every input directory.
    Done,
}

/// A position in the walk over binaries, input directories and output
/// directories, in that nesting order.
#[derive(Clone, Copy, Debug)]
struct Cursor {
    bin: usize,
    input: usize,
    output: usize,
    stage: Stage,
}

/// What the caller reports after carrying out a requested action.
#[derive(Clone, Copy, Debug, PartialEq, Eq, Structural)]
pub enum InstallEvent {
    /// The answer to `CheckInput`.
    InputChecked { exists: bool },
    /// The answer to `CheckOutput`.
    OutputChecked { exists: bool },
    /// `Replace` or `Copy` was carried out.
    Placed,
}

/// What the walk asks the caller to do next.
#[derive(Debug)]
pub enum InstallAction {
    /// Look whether binary `bin` exists in `input`.
    CheckInput { bin: String, input: InputDir },
    /// Look whether binary `bin` already exists in `output`.
    CheckOutput { bin: String, input: InputDir, output: OutputDir },
    /// Replace the existing binary `bin` in `output` with the one in `input`,
    /// moving the old one aside into the relocation directory.
    Replace { bin: String, input: InputDir, output: OutputDir },
    /// Copy binary `bin` from `input` into `output` and make it executable.
    Copy { bin: String, input: InputDir, output: OutputDir },
    /// Stop; `installed` tells whether any binary was placed.
    Finish { installed: bool },
}

/// The state of an install walk.
pub struct WalkView {
    pub bins: Seq<Seq<char>>,
    pub outputs: Seq<OutputDir>,
    pub bin: int,
    pub input: int,
    pub output: int,
    pub stage: Stage,
    pub installed: bool,
}

/// The number of input directories searched for each binary.
pub open spec fn spec_input_count() -> int {
    2
}

/// The walk at the first binary in the first input directory, or finished
/// when there is no binary.
pub open spec fn spec_walk_start(bins: Seq<Seq<char>>, outputs: Seq<OutputDir>) -> WalkView {
    WalkView {
        bins,
        outputs,
        bin: 0,
        input: 0,
        output: 0,
        stage: if bins.len() == 0 { Stage::Done } else { Stage::Input },
        installed: false,
    }
}

/// The walk moved on to the next input directory, or to the next binary's
/// first input directory, or finished after the last.
pub open spec fn spec_next_input(v: WalkView) -> WalkView {
    if v.input + 1 < spec_input_count() {
        WalkView { input: v.input + 1, output: 0, stage: Stage::Input, ..v }
    } else if v.bin + 1 < v.bins.len() {
        WalkView { bin: v.bin + 1, input: 0, output: 0, stage: Stage::Input, ..v }
    } else {
        WalkView { stage: Stage::Done, ..v }
    }
}

/// How the walk answers an event: a missing binary moves on to the next
/// input directory, a present one visits each output directory in turn, and
/// each placement marks the walk as having installed something. An event
/// that does not answer what the walk waits for leaves it unchanged.
pub open spec fn spec_step(v: WalkView, e: InstallEvent) -> WalkView {
    match (v.stage, e) {
        (Stage::Input, InstallEvent::InputChecked { exists }) => {
            if exists && v.outputs.len() > 0 {
                WalkView { output: 0, stage: Stage::Output, ..v }
            } else {
                spec_next_input(v)
            }
        },
        (Stage::Output, InstallEvent::OutputChecked { exists }) => {
            WalkView { stage: Stage::Place { replace: exists }, ..v }
        },
        (Stage::Place { .. }, InstallEvent::Placed) => {
            let w = WalkView { installed: true, ..v };
            if v.output + 1 < v.outputs.len() {
                WalkView { output: v.output + 1, stage: Stage::Output, ..w }
            } else {
                spec_next_input(w)
            }
        },
        _ => v,
    }
}

/// Whether `a` is the action that the walk in state `v` asks for.
pub open spec fn spec_action_for(v: WalkView, a: InstallAction) -> bool {
    match v.stage {
        Stage::Input => a matches InstallAction::CheckInput { bin, input } && bin@ == v.bins[v.bin]
            && input == spec_input_dir(v.input),
        Stage::Output => a matches InstallAction::CheckOutput { bin, input, output } && bin@
            == v.bins[v.bin] && input == spec_input_dir(v.input) && output == v.outputs[v.output],
        Stage::Place { replace } => if replace {
            a matches InstallAction::Replace { bin, input, output } && bin@ == v.bins[v.bin]
                && input == spec_input_dir(v.input) && output == v.outputs[v.output]
        } else {
            a matches InstallAction::Copy { bin, input, output } && bin@ == v.bins[v.bin] && input
                == spec_input_dir(v.input) && output == v.outputs[v.output]
        },
        Stage::Done => a matches InstallAction::Finish { installed } && installed == v.installed,
    }
}

/// Whether the walk's position lies within its binaries and directories.
pub open spec fn spec_walk_wf(v: WalkView) -> bool {
    &&& 0 <= v.bin
    &&& 0 <= v.input < spec_input_count()
    &&& 0 <= v.output
    &&& (v.stage !is Done ==> v.bin < v.bins.len())
    &&& ((v.stage is Output || v.stage is Place) ==> v.output < v.outputs.len())
    &&& (v.stage is Input ==> v.output == 0)
}

/// Every step keeps the walk's position within its binaries and directories.
pub proof fn lemma_step_keeps_wf(v: WalkView, e: InstallEvent)
    requires
        spec_walk_wf(v),
    ensures
        spec_walk_wf(spec_step(v, e)),
{
}

/// A walk starts well formed.
pub proof fn lemma_start_wf(bins: Seq<Seq<char>>, outputs: Seq<OutputDir>)
    ensures
        spec_walk_wf(spec_walk_start(bins, outputs)),
{
}

/// Once a binary has been placed the walk stays marked as having installed
/// something, and it becomes so marked only when a requested placement is
/// reported done.
pub proof fn lemma_installed_only_by_placement(v: WalkView, e: InstallEvent)
    ensures
        v.installed ==> spec_step(v, e).installed,
        (!v.installed && spec_step(v, e).installed) ==> (v.stage is Place && e is Placed),
{
}

/// The number of slots that one (binary, input directory) position takes:
/// its input check, and an output check and a placement per output
/// directory.
pub open spec fn spec_slots_per_position(v: WalkView) -> int {
    2 * v.outputs.len() as int + 2
}

/// The slot within its position that the walk is at.
pub open spec fn spec_slot(v: WalkView) -> int {
    match v.stage {
        Stage::Input => 0,
        Stage::Output => 1 + 2 * v.output,
        Stage::Place { .. } => 2 + 2 * v.output,
        Stage::Done => 0,
    }
}

/// How many slots of the walk are still ahead: zero once finished.
pub open spec fn spec_walk_remaining(v: WalkView) -> int {
    if v.stage is Done {
        0
    } else {
        spec_input_count() * v.bins.len() * spec_slots_per_position(v) - ((v.bin
            * spec_input_count() + v.input) * spec_slots_per_position(v) + spec_slot(v))
    }
}

proof fn lemma_position_bounds(p: int, q: int, k: int)
    by (nonlinear_arith)
    requires
        0 <= p < q,
        k > 0,
    ensures
        p * k + k <= q * k,
        (p + 1) * k == p * k + k,
{
}

/// A walk has fewer slots ahead than the starting walk's total, `2 *
/// binaries * (2 * outputs + 2)`, and every accepted event uses up at least
/// one: the walk finishes after at most that many accepted events.
pub proof fn lemma_step_uses_a_slot(v: WalkView, e: InstallEvent)
    requires
        spec_walk_wf(v),
        spec_step(v, e) != v,
    ensures
        0 <= spec_walk_remaining(spec_step(v, e)) < spec_walk_remaining(v),
        spec_walk_remaining(v) <= spec_input_count() * v.bins.len() * spec_slots_per_position(v),
{
    let k = spec_slots_per_position(v);
    let n = spec_input_count() * v.bins.len();
    let w = spec_step(v, e);
    if v.stage !is Done {
        let p = v.bin * spec_input_count() + v.input;
        assert(0 <= p < n) by (nonlinear_arith)
            requires
                0 <= v.bin < v.bins.len(),
                0 <= v.input < 2,
                p == v.bin * 2 + v.input,
                n == 2 * v.bins.len(),
        ;
        lemma_position_bounds(p, n, k);
        assert(0 <= spec_slot(v) < k);
        assert(p * k >= 0) by (nonlinear_arith)
            requires
                p >= 0,
                k > 0,
        ;
        if w.stage !is Done {
            let pw = w.bin * spec_input_count() + w.input;
            assert(w.outputs == v.outputs && w.bins == v.bins);
            if pw == p {
                assert(spec_slot(w) > spec_slot(v));
            } else {
                assert(pw == p + 1);
                assert(pw < n);
                assert(spec_slot(w) == 0);
            }
            assert(0 <= spec_slot(w) < k);
            lemma_position_bounds(pw, n, k);
        }
    }
}

/// The (binary, input directory) position of the walk, numbered
/// `2 * binary + input` in walk order; a finished walk is past the last one.
pub open spec fn spec_position(v: WalkView) -> int {
    if v.stage is Done {
        spec_input_count() * v.bins.len()
    } else {
        v.bin * spec_input_count() + v.input
    }
}

/// The report that a caller gives when it answers truthfully:
/// `input_exists(p)` tells whether the binary of position `p` exists in that
/// position's input directory, and `output_exists(p, o)` whether it already
/// exists in output directory `o`.
pub open spec fn spec_honest_event(
    v: WalkView,
    input_exists: spec_fn(int) -> bool,
    output_exists: spec_fn(int, int) -> bool,
) -> InstallEvent {
    match v.stage {
        Stage::Input => InstallEvent::InputChecked { exists: input_exists(spec_position(v)) },
        Stage::Output => InstallEvent::OutputChecked {
            exists: output_exists(spec_position(v), v.output),
        },
        _ => InstallEvent::Placed,
    }
}

/// The walk after at most `fuel` truthful reports.
pub open spec fn spec_run(
    v: WalkView,
    input_exists: spec_fn(int) -> bool,
    output_exists: spec_fn(int, int) -> bool,
    fuel: nat,
) -> WalkView
    decreases fuel,
{
    if fuel == 0 || v.stage is Done {
        v
    } else {
        spec_run(
            spec_step(v, spec_honest_event(v, input_exists, output_exists)),
            input_exists,
            output_exists,
            (fuel - 1) as nat,
        )
    }
}

/// Whether some position before `end` has its binary in its input directory.
pub open spec fn spec_found_before(input_exists: spec_fn(int) -> bool, end: int) -> bool {
    exists|q: int| 0 <= q < end && #[trigger] input_exists(q)
}

spec fn spec_run_inv(v: WalkView, input_exists: spec_fn(int) -> bool) -> bool {
    &&& spec_walk_wf(v)
    &&& (v.stage is Done ==> (v.bins.len() == 0 || (v.bin == v.bins.len() - 1 && v.input == 1)))
    &&& ((v.stage is Output || v.stage is Place) ==> input_exists(spec_position(v)))
    &&& v.installed == ((v.outputs.len() > 0 && spec_found_before(input_exists, spec_position(v)))
        || ((v.stage is Output || v.stage is Place) && v.output > 0))
}

proof fn lemma_run_inv_step(
    v: WalkView,
    input_exists: spec_fn(int) -> bool,
    output_exists: spec_fn(int, int) -> bool,
)
    requires
        spec_run_inv(v, input_exists),
        v.stage !is Done,
    ensures
        spec_run_inv(spec_step(v, spec_honest_event(v, input_exists, output_exists)), input_exists),
        spec_step(v, spec_honest_event(v, input_exists, output_exists)) != v,
{
    let e = spec_honest_event(v, input_exists, output_exists);
    let w = spec_step(v, e);
    let p = spec_position(v);
    lemma_step_keeps_wf(v, e);
    if w.stage is Done || spec_position(w) != p {
        assert(spec_position(w) == p + 1);
        assert(spec_found_before(input_exists, p + 1) == (spec_found_before(input_exists, p)
            || input_exists(p))) by {
            if input_exists(p) {
                assert(0 <= p < p + 1);
            }
            if spec_found_before(input_exists, p) {
                let q = choose|q: int| 0 <= q < p && #[trigger] input_exists(q);
                assert(0 <= q < p + 1 && input_exists(q));
            }
            if spec_found_before(input_exists, p + 1) && !input_exists(p) {
                let q = choose|q: int| 0 <= q < p + 1 && #[trigger] input_exists(q);
                assert(q != p);
                assert(0 <= q < p && input_exists(q));
            }
        }
    }
}

/// Run to the end with truthful reports, the walk finishes, and it reports
/// having installed something exactly when there is an output directory and
/// some binary was found in some input directory.
pub proof fn lemma_truthful_run_installs_iff_found(
    bins: Seq<Seq<char>>,
    outputs: Seq<OutputDir>,
    input_exists: spec_fn(int) -> bool,
    output_exists: spec_fn(int, int) -> bool,
)
    ensures
        ({
            let start = spec_walk_start(bins, outputs);
            let fuel = (spec_input_count() * bins.len() * spec_slots_per_position(start)) as nat;
            let end = spec_run(start, input_exists, output_exists, fuel);
            &&& end.stage is Done
            &&& end.installed == (outputs.len() > 0 && spec_found_before(
                input_exists,
                spec_input_count() * bins.len(),
            ))
        }),
{
    let start = spec_walk_start(bins, outputs);
    let fuel = (spec_input_count() * bins.len() * spec_slots_per_position(start)) as nat;
    let k = spec_slots_per_position(start);
    assert(spec_input_count() * bins.len() * k >= 0) by (nonlinear_arith)
        requires
            k > 0,
    ;
    assert(!spec_found_before(input_exists, 0));
    if bins.len() > 0 {
        assert((0 * spec_input_count() + 0) * k == 0) by (nonlinear_arith);
        assert(spec_walk_remaining(start) == fuel);
    }
    lemma_run_reaches_end(start, input_exists, output_exists, fuel);
}

proof fn lemma_run_reaches_end(
    v: WalkView,
    input_exists: spec_fn(int) -> bool,
    output_exists: spec_fn(int, int) -> bool,
    fuel: nat,
)
    requires
        spec_run_inv(v, input_exists),
        spec_walk_remaining(v) <= fuel,
    ensures
        spec_run(v, input_exists, output_exists, fuel).stage is Done,
        spec_run_inv(spec_run(v, input_exists, output_exists, fuel), input_exists),
        spec_run(v, input_exists, output_exists, fuel).bins == v.bins,
        spec_run(v, input_exists, output_exists, fuel).outputs == v.outputs,
    decreases fuel,
{
    if v.stage !is Done {
        let e = spec_honest_event(v, input_exists, output_exists);
        lemma_run_inv_step(v, input_exists, output_exists);
        lemma_step_uses_a_slot(v, e);
        lemma_run_reaches_end(spec_step(v, e), input_exists, output_exists, (fuel - 1) as nat);
    }
}

/// A finished walk ignores every further event.
pub proof fn lemma_done_is_final(v: WalkView, e: InstallEvent)
    requires
        v.stage is Done,
    ensures
        spec_step(v, e) == v,
{
}

/// A walk asks to place a binary only after the caller reported that the
/// binary exists in the current input directory; it asks to replace exactly
/// when the caller reported that the binary already exists in the output
/// directory.
pub proof fn lemma_placement_follows_checks(v: WalkView, e: InstallEvent)
    requires
        spec_walk_wf(v),
    ensures
        (v.stage is Input && spec_step(v, e).stage is Output) ==> e == (InstallEvent::InputChecked {
            exists: true,
        }),
        (v.stage is Output && spec_step(v, e).stage is Place) ==> e == (InstallEvent::OutputChecked {
            exists: spec_step(v, e).stage->replace,
        }),
{
}

/// Places the binaries of an unpacked release: for each binary, in each
/// input directory where it exists, into each output directory, replacing
/// a binary that is already there and copying otherwise.
///
/// The walk decides; the caller looks at the file system and moves files as
/// asked, and reports back what it saw or did.
pub struct InstallWalk {
    bins: Vec<String>,
    outputs: Vec<OutputDir>,
    cursor: Cursor,
    installed: bool,
}

impl View for InstallWalk {
    type V = WalkView;

    closed spec fn view(&self) -> WalkView {
        WalkView {
            bins: self.bins@.map_values(|s: String| s@),
            outputs: self.outputs@,
            bin: self.cursor.bin as int,
            input: self.cursor.input as int,
            output: self.cursor.output as int,
            stage: self.cursor.stage,
            installed: self.installed,
        }
    }
}

impl InstallWalk {
    #[verifier::type_invariant]
    spec fn inv(self) -> bool {
        spec_walk_wf(self@)
    }

    /// Starts a walk over the binaries `bins` and the output directories
    /// `outputs`.
    pub fn new(bins: Vec<String>, outputs: Vec<OutputDir>) -> (w: InstallWalk)
        ensures
            w@ == spec_walk_start(bins@.map_values(|s: String| s@), outputs@),
    {
        let stage = if bins.len() == 0 {
            Stage::Done
        } else {
            Stage::Input
        };
        InstallWalk {
            bins,
            outputs,
            cursor: Cursor { bin: 0, input: 0, output: 0, stage },
            installed: false,
        }
    }

    /// Whether any binary has been placed so far.
    pub fn installed(&self) -> (r: bool)
        ensures
            r == self@.installed,
    {
        self.installed
    }

    /// The action the walk asks for next.
    pub fn pending(&self) -> (a: InstallAction)
        ensures
            spec_action_for(self@, a),
    {
        proof {
            use_type_invariant(self);
        }
        let c = self.cursor;
        let input = if c.input == 0 {
            InputDir::Nested
        } else {
            InputDir::Unpacked
        };
        match c.stage {
            Stage::Input => InstallAction::CheckInput { bin: self.bins[c.bin].clone(), input },
            Stage::Output => InstallAction::CheckOutput {
                bin: self.bins[c.bin].clone(),
                input,
                output: self.outputs[c.output],
            },
            Stage::Place { replace } => {
                if replace {
                    InstallAction::Replace {
                        bin: self.bins[c.bin].clone(),
                        input,
                        output: self.outputs[c.output],
                    }
                } else {
                    InstallAction::Copy {
                        bin: self.bins[c.bin].clone(),
                        input,
                        output: self.outputs[c.output],
                    }
                }
            },
            Stage::Done => InstallAction::Finish { installed: self.installed },
        }
    }

    fn next_input(&self, c: Cursor) -> (r: Cursor)
        requires
            c.bin < self.bins.len(),
            c.input < spec_input_count(),
        ensures
            ({
                let v = WalkView {
                    bin: c.bin as int,
                    input: c.input as int,
                    output: c.output as int,
                    stage: c.stage,
                    ..self@
                };
                let n = spec_next_input(v);
                r.bin == n.bin && r.input == n.input && r.output == n.output && r.stage == n.stage
            }),
    {
        if c.input + 1 < 2 {
            Cursor { bin: c.bin, input: c.input + 1, output: 0, stage: Stage::Input }
        } else if c.bin + 1 < self.bins.len() {
            Cursor { bin: c.bin + 1, input: 0, output: 0, stage: Stage::Input }
        } else {
            Cursor { stage: Stage::Done, ..c }
        }
    }

    /// Takes the caller's report on the pending action and moves on.
    pub fn step(&mut self, event: InstallEvent)
        ensures
            final(self)@ == spec_step(old(self)@, event),
    {
        proof {
            use_type_invariant(&*self);
        }
        let c = self.cursor;
        match (c.stage, event) {
            (Stage::Input, InstallEvent::InputChecked { exists }) => {
                if exists && self.outputs.len() > 0 {
                    self.cursor = Cursor { output: 0, stage: Stage::Output, ..c };
                } else {
                    let n = self.next_input(c);
                    self.cursor = n;
                }
            },
            (Stage::Output, InstallEvent::OutputChecked { exists }) => {
                self.cursor = Cursor { stage: Stage::Place { replace: exists }, ..c };
            },
            (Stage::Place { .. }, InstallEvent::Placed) => {
                assert(c.stage is Place);
                assert(c.output < self.outputs.len());
                let more = c.output + 1 < self.outputs.len();
                self.installed = true;
                if more {
                    self.cursor = Cursor { output: c.output + 1, stage: Stage::Output, ..c };
                } else {
                    let n = self.next_input(c);
                    self.cursor = n;
                }
            },
            _ => {},
        }
        proof {
            assert(self@ =~= spec_step(old(self)@, event));
        }
    }
}

} // verus!
