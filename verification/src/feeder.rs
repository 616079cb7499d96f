//! Per-channel recognition state and the frame feeder.
//!
//! The transport collaborator pulls one fixed-size audio frame at a time,
//! synchronously. While streaming is off the frame is left exactly as it
//! was delivered; while it is on, the frame carries the bytes the
//! embedding program read from the audio source, zero-filled to the frame
//! length, and pure silence once the source is exhausted or was never
//! opened.

use vstd::prelude::*;

verus! {

/// A full frame of silence.
pub open spec fn silence(len: nat) -> Seq<u8> {
    Seq::new(len, |i: int| 0u8)
}

/// The frame contents produced from `data`: the data itself, zero-filled
/// up to the frame length.
pub open spec fn frame_bytes(data: Seq<u8>, len: nat) -> Seq<u8> {
    Seq::new(len, |i: int| if 0 <= i < data.len() {
        data[i]
    } else {
        0u8
    })
}

/// The view of an optional borrowed read result.
pub open spec fn data_view(data: Option<&Vec<u8>>) -> Option<Seq<u8>> {
    match data {
        Some(d) => Some(d@),
        None => None,
    }
}

/// The private per-channel state: whether real audio is currently being
/// streamed, whether the audio source still has unread bytes, and the
/// audio file path, immutable for the state's lifetime.
#[derive(Debug)]
pub struct RecogState {
    /// Whether the feeder currently emits real audio rather than leaving
    /// the frame untouched.
    pub streaming: bool,
    /// Whether an audio source is present and not yet exhausted.
    pub source_present: bool,
    /// The audio file path.
    pub path: String,
}

/// One frame pull at the specification level: the feeder state, the frame
/// contents and the audio mark that [`RecogState::read_frame`] leaves
/// behind, given the bytes read from the source (`None` where no read was
/// called for).
pub open spec fn spec_read_frame(r: RecogState, frame: Seq<u8>, data: Option<Seq<u8>>) -> (
    RecogState,
    Seq<u8>,
    bool,
) {
    if !r.streaming {
        (r, frame, false)
    } else {
        match data {
            None => (r, silence(frame.len()), true),
            Some(d) => (
                RecogState {
                    source_present: if d.len() == 0 {
                        false
                    } else {
                        r.source_present
                    },
                    ..r
                },
                frame_bytes(d, frame.len()),
                true,
            ),
        }
    }
}

impl RecogState {
    /// A fresh per-channel state: not streaming, no source opened yet.
    pub fn new(path: String) -> (r: RecogState)
        ensures
            !r.streaming,
            !r.source_present,
            r.path == path,
    {
        RecogState { streaming: false, source_present: false, path }
    }

    /// Whether the next frame pull needs bytes read from the audio source.
    /// Only a streaming channel with a live source ever reads it.
    pub fn wants_source_read(&self) -> (b: bool)
        ensures
            b == (self.streaming && self.source_present),
    {
        self.streaming && self.source_present
    }

    /// Answer one frame pull. `data` holds the bytes the embedding program
    /// read from the source, and is present exactly when
    /// [`Self::wants_source_read`] said to read. Returns whether the frame
    /// is to be marked audio-bearing.
    ///
    /// While streaming is off the frame and the state are left untouched.
    /// While it is on, the frame becomes the read bytes zero-filled to the
    /// frame length (pure silence when no source is present), and a read
    /// of zero bytes retires the source for good: exhaustion is monotonic.
    pub fn read_frame(&mut self, frame: &mut Vec<u8>, data: Option<&Vec<u8>>) -> (audio: bool)
        requires
            (data is Some) <==> (old(self).streaming && old(self).source_present),
            data matches Some(d) ==> d@.len() <= old(frame)@.len(),
        ensures
            audio == old(self).streaming,
            final(self).streaming == old(self).streaming,
            final(self).path == old(self).path,
            final(frame)@.len() == old(frame)@.len(),
            !old(self).streaming ==> final(frame)@ == old(frame)@ && *final(self) == *old(self),
            old(self).streaming && data is None ==> final(frame)@ == silence(old(frame)@.len())
                && *final(self) == *old(self),
            data matches Some(d) ==> final(frame)@ == frame_bytes(d@, old(frame)@.len()),
            data matches Some(d) ==> (final(self).source_present <==> d@.len() > 0),
            final(self).source_present ==> old(self).source_present,
            (*final(self), final(frame)@, audio) == spec_read_frame(
                *old(self),
                old(frame)@,
                data_view(data),
            ),
    {
        if !self.streaming {
            return false;
        }
        match data {
            Some(d) => {
                let n: usize = d.len();
                let len: usize = frame.len();
                let mut i: usize = 0;
                while i < len
                    invariant
                        i <= len,
                        n == d@.len(),
                        len == frame@.len(),
                        len == old(frame)@.len(),
                        forall|j: int| 0 <= j < i ==> frame@[j] == frame_bytes(d@, len as nat)[j],
                    decreases len - i,
                {
                    if i < n {
                        frame.set(i, d[i]);
                    } else {
                        frame.set(i, 0u8);
                    }
                    i = i + 1;
                }
                proof {
                    assert(frame@ =~= frame_bytes(d@, old(frame)@.len()));
                }
                if n == 0 {
                    self.source_present = false;
                }
                true
            },
            None => {
                let len: usize = frame.len();
                let mut i: usize = 0;
                while i < len
                    invariant
                        i <= len,
                        len == frame@.len(),
                        len == old(frame)@.len(),
                        forall|j: int| 0 <= j < i ==> frame@[j] == 0u8,
                    decreases len - i,
                {
                    frame.set(i, 0u8);
                    i = i + 1;
                }
                proof {
                    assert(frame@ =~= silence(old(frame)@.len()));
                }
                true
            },
        }
    }
}

} // verus!
