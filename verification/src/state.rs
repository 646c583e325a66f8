//! The desired state of each channel: what is kept, how it is stored in
//! bytes, how an update is merged into it and what a frame does with it.

use vstd::prelude::*;
use crate::colors::{
    hsv_layout, hsv_parse, lemma_bytes_round_trip, lemma_same_channels, ColorHsv, HsvBits,
};

verus! {

/// The length of a stored record: three colours of twelve bytes and the
/// pattern byte.
pub const RECORD_LEN: usize = 37;

/// What a channel is asked to show. A field that is `None` in an update
/// leaves the stored field as it is.
#[derive(Debug, Copy, Clone, PartialEq, Eq, Structural)]
pub struct LedState {
    pub color1: Option<ColorHsv>,
    pub color2: Option<ColorHsv>,
    pub color3: Option<ColorHsv>,
    pub pattern: Option<u8>,
}

/// The twelve bytes that a colour field takes in a record: zeros where
/// there is none.
pub open spec fn color_layout(c: Option<ColorHsv>) -> Seq<u8> {
    match c {
        Some(c) => hsv_layout(c@),
        None => Seq::new(12, |k: int| 0u8),
    }
}

/// The record of a state: colour 1, colour 2, colour 3, then the pattern
/// byte, zero where there is none.
pub open spec fn record_layout(s: LedState) -> Seq<u8> {
    Seq::new(
        37,
        |k: int|
            if k < 12 {
                color_layout(s.color1)[k]
            } else if k < 24 {
                color_layout(s.color2)[k - 12]
            } else if k < 36 {
                color_layout(s.color3)[k - 24]
            } else {
                match s.pattern {
                    Some(p) => p,
                    None => 0u8,
                }
            },
    )
}

/// Whether `s` is the default state: black three times, and pattern 0.
pub open spec fn is_default(s: LedState) -> bool {
    &&& s.color1 is Some
    &&& s.color1->0@ == (HsvBits { h: 0, s: 0, v: 0 })
    &&& s.color2 == s.color1
    &&& s.color3 == s.color1
    &&& s.pattern == Some(0u8)
}

/// Whether `s` is what the record `bytes` stands for: every field present,
/// each colour parsed from its twelve bytes.
pub open spec fn is_parsed(s: LedState, bytes: Seq<u8>) -> bool {
    &&& s.color1 is Some
    &&& s.color2 is Some
    &&& s.color3 is Some
    &&& s.color1->0@ == hsv_parse(bytes.subrange(0, 12))
    &&& s.color2->0@ == hsv_parse(bytes.subrange(12, 24))
    &&& s.color3->0@ == hsv_parse(bytes.subrange(24, 36))
    &&& s.pattern == Some(bytes[36])
}

/// The stored state after an update: each field of `post` that is present
/// replaces the stored one.
pub open spec fn merged(stored: LedState, post: LedState) -> LedState {
    LedState {
        color1: if post.color1 is Some { post.color1 } else { stored.color1 },
        color2: if post.color2 is Some { post.color2 } else { stored.color2 },
        color3: if post.color3 is Some { post.color3 } else { stored.color3 },
        pattern: if post.pattern is Some { post.pattern } else { stored.pattern },
    }
}

fn copy_in(out: &mut [u8; 37], at: usize, part: &[u8; 12])
    requires
        at + 12 <= 37,
    ensures
        forall|k: int| 0 <= k < 12 ==> final(out)@[at + k] == part@[k],
        forall|j: int| 0 <= j < 37 && !(at <= j < at + 12) ==> final(out)@[j] == old(out)@[j],
{
    let mut k: usize = 0;
    while k < 12
        invariant
            k <= 12,
            at + 12 <= 37,
            forall|i: int| 0 <= i < k ==> out@[at + i] == part@[i],
            forall|j: int| 0 <= j < 37 && !(at <= j < at + 12) ==> out@[j] == old(out)@[j],
        decreases 12 - k,
    {
        out[at + k] = part[k];
        k += 1;
    }
}

fn copy_out(bytes: &[u8; 37], at: usize) -> (part: [u8; 12])
    requires
        at + 12 <= 37,
    ensures
        part@ == bytes@.subrange(at as int, at + 12),
{
    let mut part: [u8; 12] = [0; 12];
    let mut k: usize = 0;
    while k < 12
        invariant
            k <= 12,
            at + 12 <= 37,
            forall|i: int| 0 <= i < k ==> part@[i] == bytes@[at + i],
        decreases 12 - k,
    {
        part[k] = bytes[at + k];
        k += 1;
    }
    assert(part@ =~= bytes@.subrange(at as int, at + 12));
    part
}

impl LedState {
    /// The default state.
    pub fn new() -> (s: Self)
        ensures
            is_default(s),
    {
        let black = ColorHsv::new(0, 0, 0);
        LedState {
            color1: Some(black),
            color2: Some(black),
            color3: Some(black),
            pattern: Some(0),
        }
    }

    /// The record to store.
    pub fn serialize(&self) -> (bytes: [u8; 37])
        ensures
            bytes@ == record_layout(*self),
    {
        let mut out: [u8; 37] = [0; 37];
        if let Some(c) = self.color1 {
            copy_in(&mut out, 0, &c.to_le_bytes());
        }
        if let Some(c) = self.color2 {
            copy_in(&mut out, 12, &c.to_le_bytes());
        }
        if let Some(c) = self.color3 {
            copy_in(&mut out, 24, &c.to_le_bytes());
        }
        if let Some(p) = self.pattern {
            out[36] = p;
        }
        assert(out@ =~= record_layout(*self));
        out
    }

    /// The state that a record stands for. Every field of it is present.
    pub fn deserialize(bytes: [u8; 37]) -> (s: Self)
        ensures
            is_parsed(s, bytes@),
    {
        let c1 = copy_out(&bytes, 0);
        let c2 = copy_out(&bytes, 12);
        let c3 = copy_out(&bytes, 24);
        LedState {
            color1: Some(ColorHsv::from_le_bytes(c1)),
            color2: Some(ColorHsv::from_le_bytes(c2)),
            color3: Some(ColorHsv::from_le_bytes(c3)),
            pattern: Some(bytes[36]),
        }
    }

    /// The state to start a channel with, from what was found stored for
    /// it: the state that the first 37 bytes stand for, or the default state
    /// where there are fewer.
    pub fn load(stored: &[u8]) -> (s: Self)
        ensures
            stored@.len() >= 37 ==> is_parsed(s, stored@.take(37)),
            stored@.len() < 37 ==> is_default(s),
    {
        if stored.len() < RECORD_LEN {
            return Self::new();
        }
        let mut bytes: [u8; 37] = [0; 37];
        let mut k: usize = 0;
        while k < RECORD_LEN
            invariant
                k <= 37,
                stored@.len() >= 37,
                forall|i: int| 0 <= i < k ==> bytes@[i] == stored@[i],
            decreases 37 - k,
        {
            bytes[k] = stored[k];
            k += 1;
        }
        assert(bytes@ =~= stored@.take(37));
        Self::deserialize(bytes)
    }

    /// Takes over every field of `post` that is present.
    pub fn merge(&mut self, post: &LedState)
        ensures
            *final(self) == merged(*old(self), *post),
    {
        if post.color1.is_some() {
            self.color1 = post.color1;
        }
        if post.color2.is_some() {
            self.color2 = post.color2;
        }
        if post.color3.is_some() {
            self.color3 = post.color3;
        }
        if post.pattern.is_some() {
            self.pattern = post.pattern;
        }
    }
}

/// There is one default state.
pub proof fn lemma_default_unique(a: LedState, b: LedState)
    requires
        is_default(a),
        is_default(b),
    ensures
        a == b,
{
    lemma_same_channels(a.color1->0, b.color1->0);
}

/// A state with every field present, written to its record and read back,
/// is the same state.
pub proof fn lemma_record_round_trip(s: LedState, back: LedState)
    requires
        s.color1 is Some && s.color1->0.in_range(),
        s.color2 is Some && s.color2->0.in_range(),
        s.color3 is Some && s.color3->0.in_range(),
        s.pattern is Some,
        is_parsed(back, record_layout(s)),
    ensures
        back == s,
{
    let bytes = record_layout(s);
    assert(bytes.subrange(0, 12) =~= hsv_layout(s.color1->0@));
    assert(bytes.subrange(12, 24) =~= hsv_layout(s.color2->0@));
    assert(bytes.subrange(24, 36) =~= hsv_layout(s.color3->0@));
    lemma_bytes_round_trip(s.color1->0, back.color1->0);
    lemma_bytes_round_trip(s.color2->0, back.color2->0);
    lemma_bytes_round_trip(s.color3->0, back.color3->0);
}

/// What one frame does with a channel.
#[derive(Debug, Copy, Clone, PartialEq, Eq, Structural)]
pub enum FrameAction {
    /// Switch every pixel off, and send.
    AllOff,
    /// The fixed gradient over the three colours, and send.
    GradientTriple,
    /// The scrolling wave, and send.
    Sine,
    /// The sprite field, and send.
    Sprites,
    /// A pattern that is kept free: nothing is drawn or sent.
    Reserved,
    /// No pattern, or one that is unknown: nothing is done.
    Nothing,
}

/// The action that a pattern selector stands for.
pub open spec fn action_of(pattern: Option<u8>) -> FrameAction {
    match pattern {
        Some(p) => if p == 0 {
            FrameAction::AllOff
        } else if p == 1 {
            FrameAction::GradientTriple
        } else if p == 2 {
            FrameAction::Sine
        } else if p == 3 {
            FrameAction::Sprites
        } else if p == 4 || p == 5 {
            FrameAction::Reserved
        } else {
            FrameAction::Nothing
        },
        None => FrameAction::Nothing,
    }
}

/// Whether a frame with this action ends with the buffer being sent.
pub open spec fn sends(action: FrameAction) -> bool {
    action == FrameAction::AllOff || action == FrameAction::GradientTriple || action
        == FrameAction::Sine || action == FrameAction::Sprites
}

impl FrameAction {
    /// The action for a channel's pattern selector.
    pub fn select(pattern: Option<u8>) -> (action: FrameAction)
        ensures
            action == action_of(pattern),
    {
        match pattern {
            Some(0) => FrameAction::AllOff,
            Some(1) => FrameAction::GradientTriple,
            Some(2) => FrameAction::Sine,
            Some(3) => FrameAction::Sprites,
            Some(4) => FrameAction::Reserved,
            Some(5) => FrameAction::Reserved,
            _ => FrameAction::Nothing,
        }
    }

    /// Whether the buffer is sent after this action.
    pub fn sends_frame(&self) -> (b: bool)
        ensures
            b == sends(*self),
    {
        match self {
            FrameAction::AllOff => true,
            FrameAction::GradientTriple => true,
            FrameAction::Sine => true,
            FrameAction::Sprites => true,
            FrameAction::Reserved => false,
            FrameAction::Nothing => false,
        }
    }
}

/// Why the store refused a request.
#[derive(Debug, Copy, Clone, PartialEq, Eq, Structural)]
pub enum StoreError {
    /// There is no channel with that index.
    InvalidId,
}

/// The desired state of every channel, in channel order. Its owner guards
/// it with a lock; one call here is what happens under that lock.
pub struct TargetStore {
    states: Vec<LedState>,
}

impl View for TargetStore {
    type V = Seq<LedState>;

    closed spec fn view(&self) -> Seq<LedState> {
        self.states@
    }
}

impl TargetStore {
    /// A store without channels.
    pub fn new() -> (store: Self)
        ensures
            store@ == Seq::<LedState>::empty(),
    {
        TargetStore { states: Vec::new() }
    }

    /// Adds a channel, after those that are there.
    pub fn push(&mut self, state: LedState)
        ensures
            final(self)@ == old(self)@.push(state),
    {
        self.states.push(state);
    }

    /// The number of channels.
    pub fn len(&self) -> (n: usize)
        ensures
            n == self@.len(),
    {
        self.states.len()
    }

    /// The state of channel `id`, if there is such a channel.
    pub fn get(&self, id: usize) -> (r: Result<LedState, StoreError>)
        ensures
            id < self@.len() ==> r == Ok::<LedState, StoreError>(self@[id as int]),
            id >= self@.len() ==> r == Err::<LedState, StoreError>(StoreError::InvalidId),
    {
        if id < self.states.len() {
            Ok(self.states[id])
        } else {
            Err(StoreError::InvalidId)
        }
    }

    /// Merges `post` into the state of channel `id` and returns the record
    /// to store for it. The state of every other channel stays as it is;
    /// without such a channel, so does the whole store.
    pub fn update(&mut self, id: usize, post: &LedState) -> (r: Result<[u8; 37], StoreError>)
        ensures
            id < old(self)@.len() ==> final(self)@ == old(self)@.update(
                id as int,
                merged(old(self)@[id as int], *post),
            ) && r is Ok && r->Ok_0@ == record_layout(merged(old(self)@[id as int], *post)),
            id >= old(self)@.len() ==> final(self)@ == old(self)@ && r == Err::<
                [u8; 37],
                StoreError,
            >(StoreError::InvalidId),
    {
        if id < self.states.len() {
            let mut state = self.states[id];
            state.merge(post);
            self.states[id] = state;
            Ok(state.serialize())
        } else {
            Err(StoreError::InvalidId)
        }
    }
}

} // verus!
