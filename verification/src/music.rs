use vstd::prelude::*;

use crate::library::Track;

verus! {

/// `q` lists every index below `n` exactly once.
pub open spec fn is_index_permutation(q: Seq<usize>, n: nat) -> bool {
    &&& q.len() == n
    &&& q.no_duplicates()
    &&& forall|i: int| 0 <= i < q.len() ==> #[trigger] q[i] < n
}

/// The library order: 0, 1, ..., n - 1.
pub open spec fn identity_order(n: nat) -> Seq<usize> {
    Seq::new(n, |i: int| i as usize)
}

pub open spec fn opt_string_view(o: Option<String>) -> Option<Seq<char>> {
    match o {
        Some(s) => Some(s@),
        None => None,
    }
}

/// The position after `pos` in a queue of `n` tracks, wrapping to the start.
pub open spec fn next_pos(pos: nat, n: nat) -> nat {
    (pos + 1) % n
}

/// The position before `pos` in a queue of `n` tracks, wrapping to the end.
pub open spec fn prev_pos(pos: nat, n: nat) -> nat {
    if pos == 0 {
        (n - 1) as nat
    } else {
        (pos - 1) as nat
    }
}

/// What a music session holds, seen as plain values.
#[verifier::ext_equal]
pub struct MusicSessionView {
    pub tracks: Seq<Track>,
    /// The play order, as indices into `tracks`.
    pub queue: Seq<usize>,
    pub queue_pos: nat,
    /// Whether an audio output was opened.
    pub has_output: bool,
    pub paused: bool,
    pub last_error: Option<Seq<char>>,
    pub shuffle: bool,
    pub loop_track: bool,
}

impl MusicSessionView {
    /// The queue orders every track exactly once, and the position is inside it.
    pub open spec fn wf(self) -> bool {
        &&& is_index_permutation(self.queue, self.tracks.len())
        &&& (self.queue.len() == 0 ==> self.queue_pos == 0)
        &&& (self.queue.len() > 0 ==> self.queue_pos < self.queue.len())
    }

    /// The index of the track at the queue position, if the queue has one.
    pub open spec fn current_index(self) -> Option<usize> {
        if self.queue_pos < self.queue.len() {
            Some(self.queue[self.queue_pos as int])
        } else {
            None
        }
    }

    /// The session's settings and state apart from the queue are those of `other`.
    pub open spec fn same_but_queue(self, other: Self) -> bool {
        &&& self.tracks == other.tracks
        &&& self.has_output == other.has_output
        &&& self.paused == other.paused
        &&& self.last_error == other.last_error
        &&& self.shuffle == other.shuffle
        &&& self.loop_track == other.loop_track
    }
}

/// The queue position a rebuilt queue starts at: the wanted track when it exists,
/// else the start.
pub open spec fn rebuilt_position(n: nat, current_first: Option<usize>) -> nat {
    match current_first {
        Some(c) => if c < n {
            c as nat
        } else {
            0
        },
        None => 0,
    }
}

/// The queue of `v` was rebuilt: in library order at the wanted track, or, when
/// shuffling, in an order drawn by chance that starts with the wanted track.
pub open spec fn queue_rebuilt(v: MusicSessionView, current_first: Option<usize>) -> bool {
    queue_built(v.queue, v.queue_pos, v.tracks.len(), v.shuffle, current_first)
}

/// `queue` and `pos` are a play order over `n` tracks built as `queue_rebuilt`
/// describes.
pub open spec fn queue_built(
    queue: Seq<usize>,
    pos: nat,
    n: nat,
    shuffle: bool,
    current_first: Option<usize>,
) -> bool {
    &&& is_index_permutation(queue, n)
    &&& (n == 0 ==> pos == 0)
    &&& (n > 0 ==> pos < n)
    &&& shuffle ==> pos == 0 && (current_first matches Some(c) ==> (c < n ==> queue[0] == c))
    &&& !shuffle ==> queue == identity_order(n) && pos == rebuilt_position(n, current_first)
}

/// What the audio player is asked to do after a decision of the session.
#[derive(Clone, Copy, Debug, PartialEq, Eq, Structural)]
pub enum PlayerCommand {
    /// Leave the player as it is.
    Idle,
    /// Replace what is loaded with the track at this index and start it.
    Play(usize),
    Resume,
    Pause,
}

/// Starting the track at the queue position: it is handed to the player, or, with no
/// audio output, the session records that no output is available.
pub open spec fn play_current_step(v: MusicSessionView) -> (MusicSessionView, PlayerCommand) {
    match v.current_index() {
        None => (v, PlayerCommand::Idle),
        Some(i) => if v.has_output {
            (v, PlayerCommand::Play(i))
        } else {
            (
                MusicSessionView { last_error: Some("No audio output available"@), ..v },
                PlayerCommand::Idle,
            )
        },
    }
}

pub open spec fn next_step(v: MusicSessionView) -> (MusicSessionView, PlayerCommand) {
    if v.queue.len() == 0 {
        (v, PlayerCommand::Idle)
    } else {
        play_current_step(
            MusicSessionView { queue_pos: next_pos(v.queue_pos, v.queue.len()), ..v },
        )
    }
}

pub open spec fn previous_step(v: MusicSessionView) -> (MusicSessionView, PlayerCommand) {
    if v.queue.len() == 0 {
        (v, PlayerCommand::Idle)
    } else {
        play_current_step(
            MusicSessionView { queue_pos: prev_pos(v.queue_pos, v.queue.len()), ..v },
        )
    }
}

/// The play/pause button: starts the current track when nothing is loaded or
/// there is no output, else pauses or resumes.
pub open spec fn play_pause_step(v: MusicSessionView, sink_empty: bool) -> (
    MusicSessionView,
    PlayerCommand,
) {
    if v.queue.len() == 0 {
        (v, PlayerCommand::Idle)
    } else if !v.has_output || sink_empty {
        play_current_step(v)
    } else if v.paused {
        (MusicSessionView { paused: false, ..v }, PlayerCommand::Resume)
    } else {
        (MusicSessionView { paused: true, ..v }, PlayerCommand::Pause)
    }
}

/// Whether the loaded track has played to its end.
pub open spec fn track_finished(v: MusicSessionView, sink_empty: bool) -> bool {
    v.has_output && sink_empty && !v.paused
}

/// The periodic check: a finished track is started again when looping, else the
/// next one starts.
pub open spec fn tick_step(v: MusicSessionView, sink_empty: bool) -> (
    MusicSessionView,
    PlayerCommand,
) {
    if track_finished(v, sink_empty) {
        if v.loop_track {
            play_current_step(v)
        } else {
            next_step(v)
        }
    } else {
        (v, PlayerCommand::Idle)
    }
}

/// Puts the elements of `v` in an order drawn by chance.
///
/// Seeds a `rand::rngs::StdRng` from the operating system with
/// `rand::SeedableRng::try_from_os_rng`, which returns an error instead of
/// panicking, and calls `rand::seq::SliceRandom::shuffle` on the vector with it.
/// When seeding fails the vector is left as it was. The contract claims only that
/// the result holds the same elements, each as often as before (the shuffle is made
/// of swaps); which order comes out depends on chance and is left unsaid.
#[verifier::external_body]
fn shuffle_indices(v: &mut Vec<usize>)
    ensures
        final(v)@.to_multiset() == old(v)@.to_multiset(),
{
    if let Ok(mut rng) = <rand::rngs::StdRng as rand::SeedableRng>::try_from_os_rng() {
        rand::seq::SliceRandom::shuffle(v.as_mut_slice(), &mut rng);
    }
}

/// A rearrangement of an index permutation is one too.
proof fn lemma_rearranged_permutation(q1: Seq<usize>, q2: Seq<usize>, n: nat)
    requires
        is_index_permutation(q1, n),
        q2.to_multiset() == q1.to_multiset(),
    ensures
        is_index_permutation(q2, n),
{
    broadcast use vstd::multiset::group_multiset_axioms;

    q1.to_multiset_ensures();
    q2.to_multiset_ensures();
    q1.lemma_multiset_has_no_duplicates();
    assert forall|x: usize| q2.to_multiset().contains(x) implies q2.to_multiset().count(x)
        == 1 by {
        assert(q1.to_multiset().contains(x));
    }
    q2.lemma_multiset_has_no_duplicates_conv();
    assert forall|i: int| 0 <= i < q2.len() implies #[trigger] q2[i] < n by {
        assert(q2.contains(q2[i]));
        assert(q2.to_multiset().count(q2[i]) > 0);
        assert(q1.contains(q2[i]));
        let j = choose|j: int| 0 <= j < q1.len() && q1[j] == q2[i];
        assert(q1[j] < n);
    }
}

fn identity_vec(n: usize) -> (v: Vec<usize>)
    ensures
        v@ == identity_order(n as nat),
{
    let mut v: Vec<usize> = Vec::new();
    let mut i: usize = 0;
    while i < n
        invariant
            i <= n,
            v@ == identity_order(i as nat),
        decreases n - i,
    {
        v.push(i);
        i = i + 1;
        assert(v@ =~= identity_order(i as nat));
    }
    v
}

fn position_of(q: &Vec<usize>, x: usize) -> (r: Option<usize>)
    ensures
        r matches Some(p) ==> p < q@.len() && q@[p as int] == x && forall|j: int|
            0 <= j < p ==> q@[j] != x,
        r is None ==> !q@.contains(x),
{
    let n = q.len();
    let mut i: usize = 0;
    while i < n
        invariant
            n == q@.len(),
            i <= n,
            forall|j: int| 0 <= j < i ==> q@[j] != x,
        decreases n - i,
    {
        if q[i] == x {
            return Some(i);
        }
        i = i + 1;
    }
    None
}

/// The dashboard's music player state: the library, the play order and the
/// playback flags. The audio device itself is driven by the caller, which performs
/// the returned `PlayerCommand`s and reports back whether the player is empty.
pub struct MusicSession {
    tracks: Vec<Track>,
    queue: Vec<usize>,
    queue_pos: usize,
    has_output: bool,
    paused: bool,
    last_error: Option<String>,
    shuffle: bool,
    loop_track: bool,
}

impl View for MusicSession {
    type V = MusicSessionView;

    closed spec fn view(&self) -> MusicSessionView {
        MusicSessionView {
            tracks: self.tracks@,
            queue: self.queue@,
            queue_pos: self.queue_pos as nat,
            has_output: self.has_output,
            paused: self.paused,
            last_error: opt_string_view(self.last_error),
            shuffle: self.shuffle,
            loop_track: self.loop_track,
        }
    }
}

/// `s` with its first element and the element at `p` exchanged.
pub open spec fn swapped_to_front(s: Seq<usize>, p: int) -> Seq<usize> {
    s.update(0, s[p]).update(p, s[0])
}

/// Exchanging two elements of an index permutation gives an index permutation.
proof fn lemma_swap_keeps_permutation(q: Seq<usize>, pos: int, n: nat)
    requires
        is_index_permutation(q, n),
        0 <= pos < q.len(),
    ensures
        is_index_permutation(swapped_to_front(q, pos), n),
{
    let q2 = swapped_to_front(q, pos);
    assert forall|i: int, j: int| 0 <= i < q2.len() && 0 <= j < q2.len() && i != j implies q2[i]
        != q2[j] by {
        if i != 0 && i != pos && j != 0 && j != pos {
            assert(q[i] != q[j]);
        } else if i == 0 && j == pos {
        } else if i == pos && j == 0 {
        } else if i == 0 {
            assert(q[pos] != q[j]);
        } else if i == pos {
            assert(q[0] != q[j]);
        } else if j == 0 {
            assert(q[i] != q[pos]);
        } else {
            assert(q[i] != q[0]);
        }
    }
    assert forall|i: int| 0 <= i < q2.len() implies #[trigger] q2[i] < n by {
        if i == 0 {
            assert(q[pos] < n);
        } else if i == pos {
            assert(q[0] < n);
        } else {
            assert(q[i] < n);
        }
    }
}

/// Moves the wanted track of a drawn play order to the front, by exchanging it with
/// the first entry; the order is kept as drawn when no track is wanted or the
/// wanted one is not in it.
pub fn move_to_front(drawn: Vec<usize>, current: Option<usize>) -> (r: Vec<usize>)
    ensures
        current is None ==> r@ == drawn@,
        current matches Some(c) ==> (!drawn@.contains(c) ==> r@ == drawn@),
        current matches Some(c) ==> (drawn@.contains(c) ==> exists|p: int|
            0 <= p < drawn@.len() && drawn@[p] == c && (forall|j: int|
                0 <= j < p ==> drawn@[j] != c) && r@ == swapped_to_front(drawn@, p)),
{
    let mut queue = drawn;
    if let Some(c) = current {
        if let Some(pos) = position_of(&queue, c) {
            let ghost q = queue@;
            let first = queue[0];
            let found = queue[pos];
            queue.set(0, found);
            queue.set(pos, first);
            assert(queue@ =~= swapped_to_front(q, pos as int));
        }
    }
    queue
}

/// Builds the play order over `n` tracks: library order at the wanted track, or,
/// when shuffling, an order drawn by chance with the wanted track moved to the front.
fn build_queue(n: usize, shuffle: bool, current_first: Option<usize>) -> (r: (Vec<usize>, usize))
    ensures
        queue_built(r.0@, r.1 as nat, n as nat, shuffle, current_first),
{
    let mut queue = identity_vec(n);
    if n == 0 {
        return (queue, 0);
    }
    assert(is_index_permutation(queue@, n as nat));

    if shuffle {
        let ghost before = queue@;
        shuffle_indices(&mut queue);
        proof {
            lemma_rearranged_permutation(before, queue@, n as nat);
        }

        let ghost drawn = queue@;
        let queue = move_to_front(queue, current_first);
        proof {
            if let Some(current) = current_first {
                if current < n {
                    assert(drawn.contains(current)) by {
                        assert(before[current as int] == current);
                        vstd::seq_lib::to_multiset_contains(before, current);
                        vstd::seq_lib::to_multiset_contains(drawn, current);
                    }
                }
                if drawn.contains(current) {
                    let p = choose|p: int|
                        0 <= p < drawn.len() && drawn[p] == current && (forall|j: int|
                            0 <= j < p ==> drawn[j] != current) && queue@ == swapped_to_front(
                            drawn,
                            p,
                        );
                    lemma_swap_keeps_permutation(drawn, p, n as nat);
                }
            }
        }
        (queue, 0)
    } else {
        let pos = match current_first {
            Some(current) => match position_of(&queue, current) {
                Some(p) => p,
                None => 0,
            },
            None => 0,
        };
        proof {
            if let Some(current) = current_first {
                if current < n {
                    assert(queue@[current as int] == current);
                }
            }
        }
        (queue, pos)
    }
}

impl MusicSession {
    /// The play order lists every track once, and the position is inside it.
    #[verifier::type_invariant]
    closed spec fn queue_valid(self) -> bool {
        self@.wf()
    }

    /// A session over the tracks found in the music folder, paused, with the queue
    /// built. `has_output` tells whether an audio output could be opened, and
    /// `output_error` is the message recorded when it could not.
    pub fn new(
        tracks: Vec<Track>,
        has_output: bool,
        output_error: Option<String>,
        shuffle: bool,
        loop_track: bool,
    ) -> (s: MusicSession)
        ensures
            s@.tracks == tracks@,
            s@.has_output == has_output,
            s@.paused,
            s@.last_error == opt_string_view(output_error),
            s@.shuffle == shuffle,
            s@.loop_track == loop_track,
            queue_rebuilt(s@, None),
            s@.wf(),
    {
        let (queue, queue_pos) = build_queue(tracks.len(), shuffle, None);
        MusicSession {
            tracks,
            queue,
            queue_pos,
            has_output,
            paused: true,
            last_error: output_error,
            shuffle,
            loop_track,
        }
    }

    /// The index of the track at the queue position.
    pub fn current_track_index(&self) -> (r: Option<usize>)
        ensures
            r == self@.current_index(),
            self@.wf(),
    {
        proof {
            use_type_invariant(self);
        }
        if self.queue_pos < self.queue.len() {
            Some(self.queue[self.queue_pos])
        } else {
            None
        }
    }

    pub fn current_track(&self) -> (r: Option<&Track>)
        ensures
            r is Some <==> self@.current_index() is Some,
            r matches Some(t) ==> *t == self@.tracks[self@.current_index()->0 as int],
    {
        match self.current_track_index() {
            Some(i) => Some(&self.tracks[i]),
            None => None,
        }
    }

    /// The length of the current track as whole seconds and nanoseconds, when it is
    /// known (not zero).
    pub fn current_duration(&self) -> (r: Option<(u64, u32)>)
        ensures
            r matches Some(d) ==> self@.current_index() matches Some(i) && d.0
                == self@.tracks[i as int].duration_secs && d.1
                == self@.tracks[i as int].duration_nanos && (d.0 > 0 || d.1 > 0),
            r is None ==> (self@.current_index() matches Some(i) ==> self@.tracks[i as int].duration_secs
                == 0 && self@.tracks[i as int].duration_nanos == 0),
    {
        proof {
            use_type_invariant(self);
        }
        match self.current_track() {
            Some(t) => if t.duration_secs > 0 || t.duration_nanos > 0 {
                Some((t.duration_secs, t.duration_nanos))
            } else {
                None
            },
            None => None,
        }
    }

    pub fn is_loop_enabled(&self) -> (r: bool)
        ensures
            r == self@.loop_track,
    {
        self.loop_track
    }

    pub fn loop_toggle(&mut self)
        ensures
            final(self)@ == (MusicSessionView { loop_track: !old(self)@.loop_track, ..old(self)@ }),
    {
        proof {
            use_type_invariant(&*self);
        }
        self.loop_track = !self.loop_track;
    }

    pub fn is_shuffle_enabled(&self) -> (r: bool)
        ensures
            r == self@.shuffle,
    {
        self.shuffle
    }

    /// Whether playback is paused, as far as the session knows: true until a track
    /// has started, and after the play/pause button paused it.
    pub fn is_paused(&self) -> (r: bool)
        ensures
            r == self@.paused,
    {
        self.paused
    }

    pub fn last_error(&self) -> (r: Option<&String>)
        ensures
            r matches Some(e) ==> self@.last_error == Some(e@),
            r is None ==> self@.last_error is None,
    {
        match &self.last_error {
            Some(e) => Some(e),
            None => None,
        }
    }

    /// Turns shuffling on or off and rebuilds the queue, keeping the track at the
    /// queue position current.
    pub fn shuffle_toggle(&mut self)
        ensures
            final(self)@.shuffle == !old(self)@.shuffle,
            final(self)@.tracks == old(self)@.tracks,
            final(self)@.has_output == old(self)@.has_output,
            final(self)@.paused == old(self)@.paused,
            final(self)@.last_error == old(self)@.last_error,
            final(self)@.loop_track == old(self)@.loop_track,
            final(self)@.wf(),
            final(self)@.current_index() == old(self)@.current_index(),
            old(self)@.tracks.len() > 0 ==> queue_rebuilt(final(self)@, old(self)@.current_index()),
            old(self)@.tracks.len() == 0 ==> final(self)@.queue == old(self)@.queue
                && final(self)@.queue_pos == old(self)@.queue_pos,
    {
        proof {
            use_type_invariant(&*self);
        }
        self.shuffle = !self.shuffle;

        if self.tracks.len() == 0 {
            return;
        }

        let current = self.current_track_index();
        if self.queue.len() == 0 {
            self.queue = identity_vec(self.tracks.len());
        }

        self.rebuild_queue(current);
    }

    /// Records that the player started the track it was asked to play.
    pub fn playback_started(&mut self)
        ensures
            final(self)@ == (MusicSessionView { paused: false, last_error: None, ..old(self)@ }),
    {
        proof {
            use_type_invariant(&*self);
        }
        self.paused = false;
        self.last_error = None;
    }

    /// Records a failure of the player, such as a file that could not be opened or
    /// decoded, or a seek that failed.
    pub fn record_error(&mut self, message: String)
        ensures
            final(self)@ == (MusicSessionView { last_error: Some(message@), ..old(self)@ }),
    {
        proof {
            use_type_invariant(&*self);
        }
        self.last_error = Some(message);
    }

    pub fn play_pause_toggle(&mut self, sink_empty: bool) -> (cmd: PlayerCommand)
        ensures
            old(self)@.wf(),
            (final(self)@, cmd) == play_pause_step(old(self)@, sink_empty),
            final(self)@.wf(),
            cmd matches PlayerCommand::Play(i) ==> i < final(self)@.tracks.len(),
    {
        proof {
            use_type_invariant(&*self);
        }
        if !self.ensure_queue_initialized() {
            return PlayerCommand::Idle;
        }

        if !self.has_output {
            return self.play_current();
        }

        if sink_empty {
            return self.play_current();
        }

        if self.paused {
            self.paused = false;
            PlayerCommand::Resume
        } else {
            self.paused = true;
            PlayerCommand::Pause
        }
    }

    pub fn next(&mut self) -> (cmd: PlayerCommand)
        ensures
            old(self)@.wf(),
            (final(self)@, cmd) == next_step(old(self)@),
            final(self)@.wf(),
            cmd matches PlayerCommand::Play(i) ==> i < final(self)@.tracks.len(),
    {
        proof {
            use_type_invariant(&*self);
        }
        if !self.ensure_queue_initialized() {
            return PlayerCommand::Idle;
        }

        proof {
            use_type_invariant(&*self);
        }
        assert(self.queue_pos < self.queue.len());
        self.queue_pos = (self.queue_pos + 1) % self.queue.len();
        self.play_current()
    }

    pub fn previous(&mut self) -> (cmd: PlayerCommand)
        ensures
            old(self)@.wf(),
            (final(self)@, cmd) == previous_step(old(self)@),
            final(self)@.wf(),
            cmd matches PlayerCommand::Play(i) ==> i < final(self)@.tracks.len(),
    {
        proof {
            use_type_invariant(&*self);
        }
        if !self.ensure_queue_initialized() {
            return PlayerCommand::Idle;
        }

        self.queue_pos = if self.queue_pos == 0 {
            self.queue.len() - 1
        } else {
            self.queue_pos - 1
        };
        self.play_current()
    }

    /// Called on every frame with whether the player has run out of audio.
    pub fn tick(&mut self, sink_empty: bool) -> (cmd: PlayerCommand)
        ensures
            old(self)@.wf(),
            (final(self)@, cmd) == tick_step(old(self)@, sink_empty),
            final(self)@.wf(),
            cmd matches PlayerCommand::Play(i) ==> i < final(self)@.tracks.len(),
    {
        proof {
            use_type_invariant(&*self);
        }
        let finished = self.has_output && sink_empty && !self.paused;

        if finished {
            if self.loop_track {
                self.play_current()
            } else {
                self.next()
            }
        } else {
            PlayerCommand::Idle
        }
    }

    fn ensure_queue_initialized(&mut self) -> (r: bool)
        ensures
            final(self)@ == old(self)@,
            r == (final(self)@.queue.len() > 0),
            r == (old(self)@.tracks.len() > 0),
    {
        proof {
            use_type_invariant(&*self);
        }
        if self.queue.len() == 0 && self.tracks.len() > 0 {
            self.rebuild_queue(None);
        }
        self.queue.len() > 0
    }

    fn rebuild_queue(&mut self, current_first: Option<usize>)
        ensures
            final(self)@.same_but_queue(old(self)@),
            queue_rebuilt(final(self)@, current_first),
    {
        proof {
            use_type_invariant(&*self);
        }
        let (queue, pos) = build_queue(self.tracks.len(), self.shuffle, current_first);
        self.queue = queue;
        self.queue_pos = pos;
    }

    fn play_current(&mut self) -> (cmd: PlayerCommand)
        ensures
            (final(self)@, cmd) == play_current_step(old(self)@),
            cmd matches PlayerCommand::Play(i) ==> i < final(self)@.tracks.len(),
    {
        proof {
            use_type_invariant(&*self);
        }
        let track_idx = match self.current_track_index() {
            Some(i) => i,
            None => {
                return PlayerCommand::Idle;
            },
        };

        if !self.has_output {
            self.last_error = Some("No audio output available".to_owned());
            proof {
                reveal_strlit("No audio output available");
            }
            return PlayerCommand::Idle;
        }
        PlayerCommand::Play(track_idx)
    }
}

/// The periodic check only acts when the player has an output, has run out of
/// audio and the session is not paused: a paused session, a session without
/// output, or a player still holding audio is left as it is and the player is not
/// asked for anything, whether looping is on or off.
pub proof fn lemma_tick_acts_only_when_finished(v: MusicSessionView, sink_empty: bool)
    ensures
        v.paused ==> tick_step(v, sink_empty) == (v, PlayerCommand::Idle),
        !v.has_output ==> tick_step(v, sink_empty) == (v, PlayerCommand::Idle),
        !sink_empty ==> tick_step(v, sink_empty) == (v, PlayerCommand::Idle),
        tick_step(v, sink_empty).1 != PlayerCommand::Idle ==> v.has_output && sink_empty
            && !v.paused,
        tick_step(v, sink_empty).1 != PlayerCommand::Resume,
        tick_step(v, sink_empty).1 != PlayerCommand::Pause,
{
}

/// Going to the next track and then back to the previous one returns to the same
/// queue position and track, and so does going back first and then forward.
pub proof fn lemma_previous_undoes_next(v: MusicSessionView)
    requires
        v.wf(),
        v.tracks.len() > 0,
    ensures
        previous_step(next_step(v).0).0.queue_pos == v.queue_pos,
        previous_step(next_step(v).0).0.queue == v.queue,
        previous_step(next_step(v).0).0.current_index() == v.current_index(),
        next_step(previous_step(v).0).0.queue_pos == v.queue_pos,
        next_step(previous_step(v).0).0.queue == v.queue,
        next_step(previous_step(v).0).0.current_index() == v.current_index(),
{
    lemma_next_pos_step(v.queue_pos, v.queue.len());
    lemma_next_pos_step(prev_pos(v.queue_pos, v.queue.len()), v.queue.len());
}

/// One step forward from a position inside a queue of `n` tracks.
proof fn lemma_next_pos_step(pos: nat, n: nat)
    requires
        pos < n,
    ensures
        next_pos(pos, n) == if pos + 1 == n {
            0
        } else {
            pos + 1
        },
{
    if pos + 1 < n {
        vstd::arithmetic::div_mod::lemma_small_mod(pos + 1, n);
    } else {
        vstd::arithmetic::div_mod::lemma_mod_self_0(n as int);
    }
}

/// Every decision keeps the queue a permutation of the library with the position
/// inside it, and every track it asks the player to start exists.
pub proof fn lemma_steps_keep_queue_valid(v: MusicSessionView, sink_empty: bool)
    requires
        v.wf(),
    ensures
        next_step(v).0.wf(),
        previous_step(v).0.wf(),
        play_pause_step(v, sink_empty).0.wf(),
        tick_step(v, sink_empty).0.wf(),
        next_step(v).1 matches PlayerCommand::Play(i) ==> i < v.tracks.len(),
        previous_step(v).1 matches PlayerCommand::Play(i) ==> i < v.tracks.len(),
        play_pause_step(v, sink_empty).1 matches PlayerCommand::Play(i) ==> i < v.tracks.len(),
        tick_step(v, sink_empty).1 matches PlayerCommand::Play(i) ==> i < v.tracks.len(),
{
}

/// Pressing play/pause twice while a track is loaded leaves the session as it was,
/// having paused and resumed (or resumed and paused) the player.
pub proof fn lemma_play_pause_twice(v: MusicSessionView)
    requires
        v.wf(),
        v.tracks.len() > 0,
        v.has_output,
    ensures
        play_pause_step(play_pause_step(v, false).0, false).0 == v,
        v.paused ==> play_pause_step(v, false).1 == PlayerCommand::Resume,
        !v.paused ==> play_pause_step(v, false).1 == PlayerCommand::Pause,
{
}

/// When the loaded track ends, looping starts the same track again; otherwise the
/// next track in the queue starts.
pub proof fn lemma_finished_track_follow_up(v: MusicSessionView)
    requires
        v.wf(),
        v.tracks.len() > 0,
        v.has_output,
        !v.paused,
    ensures
        v.loop_track ==> tick_step(v, true) == (v, PlayerCommand::Play(v.queue[v.queue_pos as int])),
        !v.loop_track ==> tick_step(v, true).1 == PlayerCommand::Play(
            v.queue[next_pos(v.queue_pos, v.queue.len()) as int],
        ),
        tick_step(v, false) == (v, PlayerCommand::Idle),
{
}

/// Pressing next `k` times moves `k` positions forward, wrapping around the queue.
pub proof fn lemma_next_moves_forward(pos: nat, n: nat, k: nat)
    requires
        pos < n,
    ensures
        next_pos_n(pos, n, k) == (pos + k) % n,
    decreases k,
{
    if k > 0 {
        lemma_next_moves_forward(pos, n, (k - 1) as nat);
        vstd::arithmetic::div_mod::lemma_add_mod_noop_right(1, pos + k - 1, n as int);
    } else {
        vstd::arithmetic::div_mod::lemma_small_mod(pos, n);
    }
}

/// Pressing next as many times as there are tracks comes back to the starting
/// position.
pub proof fn lemma_next_cycles(pos: nat, n: nat)
    requires
        pos < n,
    ensures
        next_pos_n(pos, n, n) == pos,
{
    lemma_next_moves_forward(pos, n, n);
    vstd::arithmetic::div_mod::lemma_mod_add_multiples_vanish(pos as int, n as int);
    vstd::arithmetic::div_mod::lemma_small_mod(pos, n);
}

/// The queue position after pressing next `k` times.
pub open spec fn next_pos_n(pos: nat, n: nat, k: nat) -> nat
    decreases k,
{
    if k == 0 {
        pos
    } else {
        next_pos(next_pos_n(pos, n, (k - 1) as nat), n)
    }
}

} // verus!
