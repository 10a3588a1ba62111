use vstd::prelude::*;

verus! {

/// Tells a running spinner to stop.
#[derive(Debug, Clone, Copy, PartialEq, Eq)]
pub struct SpinnerStopSignal;

/// The frames that the loading spinner shows, in order.
pub open spec fn frames_spec() -> Seq<Seq<char>> {
    seq!["⠙"@, "⠹"@, "⠸"@, "⠼"@, "⠴"@, "⠦"@, "⠧"@, "⠇"@, "⠏"@]
}

/// The frames of the loading spinner, in the order it shows them.
pub fn spinner_frames() -> (r: Vec<String>)
    ensures
        r@.map_values(|s: String| s@) == frames_spec(),
{
    let mut r: Vec<String> = Vec::new();
    r.push("⠙".to_owned());
    r.push("⠹".to_owned());
    r.push("⠸".to_owned());
    r.push("⠼".to_owned());
    r.push("⠴".to_owned());
    r.push("⠦".to_owned());
    r.push("⠧".to_owned());
    r.push("⠇".to_owned());
    r.push("⠏".to_owned());
    assert(r@.map_values(|s: String| s@) =~= frames_spec());
    r
}

/// The frame that a spinner shows first, and shows every time when it has no
/// frames.
pub open spec fn first_frame_spec() -> Seq<char> {
    "⠙"@
}

/// The frame that a spinner shows before its first tick.
pub fn first_frame() -> (r: String)
    ensures
        r@ == first_frame_spec(),
{
    "⠙".to_owned()
}

/// What a spinner does on a tick.
#[derive(Debug, PartialEq, Eq)]
pub enum SpinAction {
    /// The stop signal came: stop spinning.
    Stop,
    /// The tick passed with no stop signal: show this frame.
    Show(String),
}

/// The frame shown at a position of a cycle of frames.
pub open spec fn shown_frame(frames: Seq<Seq<char>>, pos: nat) -> Seq<char> {
    if frames.len() == 0 {
        first_frame_spec()
    } else {
        frames[pos as int]
    }
}

/// The position after a shown frame: the next one, round to the first.
pub open spec fn next_pos(len: nat, pos: nat) -> nat {
    if len == 0 {
        0
    } else {
        ((pos + 1) as int % (len as int)) as nat
    }
}

/// A cycle of frames and the position of the frame to show next.
pub struct Spinner {
    frames: Vec<String>,
    pos: usize,
}

impl Spinner {
    #[verifier::type_invariant]
    spec fn position_in_range(self) -> bool {
        if self.frames@.len() == 0 {
            self.pos == 0
        } else {
            self.pos < self.frames@.len()
        }
    }
}

impl View for Spinner {
    type V = (Seq<Seq<char>>, nat);

    closed spec fn view(&self) -> (Seq<Seq<char>>, nat) {
        (self.frames@.map_values(|s: String| s@), self.pos as nat)
    }
}

impl Spinner {
    /// A spinner over these frames, at the first one.
    pub fn new(frames: Vec<String>) -> (r: Self)
        ensures
            r@ == (frames@.map_values(|s: String| s@), 0nat),
    {
        Spinner { frames, pos: 0 }
    }

    /// One tick: stops when the stop signal came; otherwise shows the frame
    /// at the current position and moves to the next one, round to the first.
    pub fn step(&mut self, stop_received: bool) -> (a: SpinAction)
        ensures
            stop_received ==> a == SpinAction::Stop && final(self)@ == old(self)@,
            !stop_received ==> (a matches SpinAction::Show(f) && f@ == shown_frame(
                old(self)@.0,
                old(self)@.1,
            )) && final(self)@ == (old(self)@.0, next_pos(old(self)@.0.len(), old(self)@.1)),
    {
        proof {
            use_type_invariant(&*self);
        }
        if stop_received {
            return SpinAction::Stop;
        }
        let n = self.frames.len();
        if n == 0 {
            SpinAction::Show(first_frame())
        } else {
            let f = self.frames[self.pos].clone();
            if self.pos + 1 < n {
                self.pos = self.pos + 1;
            } else {
                self.pos = 0;
            }
            proof {
                let p = old(self)@.1;
                if p + 1 < n {
                    vstd::arithmetic::div_mod::lemma_small_mod((p + 1) as nat, n as nat);
                } else {
                    vstd::arithmetic::div_mod::lemma_mod_self_0(n as int);
                }
            }
            SpinAction::Show(f)
        }
    }
}

/// The frames shown by `k` ticks with no stop signal, from position `pos`.
pub open spec fn shown_run(frames: Seq<Seq<char>>, pos: nat, k: nat) -> Seq<Seq<char>>
    decreases k,
{
    if k == 0 {
        Seq::empty()
    } else {
        seq![shown_frame(frames, pos)] + shown_run(frames, next_pos(frames.len(), pos), (k - 1) as nat)
    }
}

/// From any position of a non-empty cycle, tick `j` of a run of ticks shows
/// the frame `j` places further on, round and round.
pub proof fn lemma_shown_run_from(frames: Seq<Seq<char>>, pos: nat, k: nat)
    requires
        frames.len() > 0,
        pos < frames.len(),
    ensures
        shown_run(frames, pos, k).len() == k,
        forall|j: int|
            0 <= j < k ==> #[trigger] shown_run(frames, pos, k)[j] == frames[(pos + j) % (
            frames.len() as int)],
    decreases k,
{
    let len = frames.len() as int;
    if k > 0 {
        let p1 = next_pos(frames.len(), pos);
        vstd::arithmetic::div_mod::lemma_mod_bound((pos + 1) as int, len);
        lemma_shown_run_from(frames, p1, (k - 1) as nat);
        let run = shown_run(frames, pos, k);
        let rest = shown_run(frames, p1, (k - 1) as nat);
        assert forall|j: int| 0 <= j < k implies #[trigger] run[j] == frames[(pos + j) % len] by {
            if j == 0 {
                vstd::arithmetic::div_mod::lemma_small_mod(pos, len as nat);
            } else {
                assert(run[j] == rest[j - 1]);
                let x = (pos + 1) as int;
                vstd::arithmetic::div_mod::lemma_add_mod_noop(x, j - 1, len);
                vstd::arithmetic::div_mod::lemma_add_mod_noop(x % len, j - 1, len);
                vstd::arithmetic::div_mod::lemma_mod_twice(x, len);
                assert((p1 + (j - 1)) % len == (pos + j) % len);
            }
        }
    }
}

/// The loading spinner, started at its first frame, shows on its `j`-th tick
/// with no stop signal the `j`-th frame modulo nine, and so always one of
/// the nine frames.
pub proof fn lemma_loading_spinner_run(k: nat)
    ensures
        shown_run(frames_spec(), 0, k).len() == k,
        forall|j: int|
            0 <= j < k ==> #[trigger] shown_run(frames_spec(), 0, k)[j] == frames_spec()[j % 9],
        forall|j: int| 0 <= j < k ==> frames_spec().contains(#[trigger] shown_run(frames_spec(), 0, k)[j]),
{
    lemma_shown_run_from(frames_spec(), 0, k);
    assert forall|j: int| 0 <= j < k implies frames_spec().contains(
        #[trigger] shown_run(frames_spec(), 0, k)[j],
    ) by {
        vstd::arithmetic::div_mod::lemma_mod_bound(j, 9);
        assert(shown_run(frames_spec(), 0, k)[j] == frames_spec()[j % 9]);
    }
}

/// The loading spinner turns through nine braille frames, ⠙ ⠹ ⠸ ⠼ ⠴ ⠦ ⠧
/// ⠇ ⠏, each one character, and the frame shown before the first tick (and
/// by a spinner with no frames) is the first of them.
pub proof fn lemma_loading_frames()
    ensures
        frames_spec().len() == 9,
        frames_spec() == seq!["⠙"@, "⠹"@, "⠸"@, "⠼"@, "⠴"@, "⠦"@, "⠧"@, "⠇"@, "⠏"@],
        first_frame_spec() == frames_spec()[0],
        forall|i: int| 0 <= i < 9 ==> (#[trigger] frames_spec()[i]).len() == 1,
{
    reveal_strlit("⠙");
    reveal_strlit("⠹");
    reveal_strlit("⠸");
    reveal_strlit("⠼");
    reveal_strlit("⠴");
    reveal_strlit("⠦");
    reveal_strlit("⠧");
    reveal_strlit("⠇");
    reveal_strlit("⠏");
}

} // verus!
