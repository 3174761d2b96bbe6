//! Decisions of the display thread: when the screen layout is rebuilt, when
//! the position readout changes, how the media progress arc is set, and the
//! double-buffered album art that the host streams in.
use vstd::prelude::*;

use crate::firmware::ipc::DisplayMode;
use crate::text::{decimal, push_decimal};

verus! {

/// Album art width in pixels.
pub const ART_WIDTH: u32 = 240;

/// Album art height in pixels.
pub const ART_HEIGHT: u32 = 240;

/// Bytes of one album art image: 240 x 240 RGB565 pixels.
pub const ART_BUF_SIZE: usize = 115200;

/// Two album art images: the one on screen and the one being received.
pub struct ArtBuffers {
    pub display: Vec<u8>,
    pub load: Vec<u8>,
}

/// The bytes of `load` after a chunk `data` lands at `offset`: the chunk is
/// cut off at the end of the image.
pub open spec fn chunk_written(load: Seq<u8>, offset: int, data: Seq<u8>) -> Seq<u8> {
    Seq::new(
        load.len(),
        |k: int|
            if offset <= k < offset + data.len() {
                data[k - offset]
            } else {
                load[k]
            },
    )
}

impl ArtBuffers {
    /// Both images have the full size.
    pub open spec fn wf(&self) -> bool {
        self.display@.len() == ART_BUF_SIZE && self.load@.len() == ART_BUF_SIZE
    }

    /// Two black images.
    pub fn new() -> (a: Self)
        ensures
            a.wf(),
            forall|k: int| 0 <= k < ART_BUF_SIZE ==> #[trigger] a.display@[k] == 0 && a.load@[k] == 0,
    {
        let mut display: Vec<u8> = Vec::new();
        let mut load: Vec<u8> = Vec::new();
        let mut i: usize = 0;
        while i < ART_BUF_SIZE
            invariant
                i <= ART_BUF_SIZE,
                display@.len() == i,
                load@.len() == i,
                forall|k: int| 0 <= k < i ==> #[trigger] display@[k] == 0 && load@[k] == 0,
            decreases ART_BUF_SIZE - i,
        {
            display.push(0);
            load.push(0);
            i = i + 1;
        }
        ArtBuffers { display, load }
    }

    /// Copies a received chunk into the image being loaded, starting at
    /// byte `offset`; bytes that would run past the end are dropped.
    pub fn write_chunk(&mut self, offset: u32, data: &[u8])
        requires
            old(self).wf(),
            offset <= ART_BUF_SIZE,
        ensures
            final(self).wf(),
            final(self).display == old(self).display,
            final(self).load@ == chunk_written(old(self).load@, offset as int, data@),
    {
        let start: usize = offset as usize;
        let room: usize = ART_BUF_SIZE - start;
        let n: usize = if data.len() < room {
            data.len()
        } else {
            room
        };
        let ghost before = self.load@;
        let ghost shown = self.display;
        let mut i: usize = 0;
        while i < n
            invariant
                i <= n,
                self.display == shown,
                self.display@.len() == ART_BUF_SIZE,
                n <= data@.len(),
                start + n <= ART_BUF_SIZE,
                n == data@.len() || start + n == ART_BUF_SIZE,
                before.len() == ART_BUF_SIZE,
                self.load@.len() == ART_BUF_SIZE,
                forall|k: int|
                    0 <= k < ART_BUF_SIZE ==> #[trigger] self.load@[k] == (if start <= k < start + i {
                        data@[k - start]
                    } else {
                        before[k]
                    }),
            decreases n - i,
        {
            self.load.set(start + i, data[i]);
            i = i + 1;
        }
        assert(self.load@ =~= chunk_written(before, offset as int, data@));
    }

    /// Puts the loaded image on screen; the old screen image becomes the
    /// buffer for the next transfer.
    pub fn swap(&mut self)
        ensures
            final(self).display == old(self).load,
            final(self).load == old(self).display,
    {
        std::mem::swap(&mut self.display, &mut self.load);
    }
}

/// How many raw bytes a binary art transfer of `size` bytes reads: at most
/// one image.
pub fn receive_len(size: u32) -> (n: usize)
    ensures
        n == (if size <= ART_BUF_SIZE { size as int } else { ART_BUF_SIZE as int }),
{
    if size as usize <= ART_BUF_SIZE {
        size as usize
    } else {
        ART_BUF_SIZE
    }
}

/// Progress of a binary art transfer.
pub struct ArtReceiver {
    pub received: usize,
    pub max: usize,
}

impl ArtReceiver {
    /// A transfer of `size` announced bytes, of which at most one image is
    /// read.
    pub fn new(size: u32) -> (r: Self)
        ensures
            r.received == 0,
            r.max == (if size <= ART_BUF_SIZE { size as int } else { ART_BUF_SIZE as int }),
    {
        ArtReceiver { received: 0, max: receive_len(size) }
    }

    /// Bytes still to read.
    pub fn remaining(&self) -> (n: usize)
        requires
            self.received <= self.max,
        ensures
            n == self.max - self.received,
    {
        self.max - self.received
    }

    /// Counts `n` more bytes as read.
    pub fn accept(&mut self, n: usize)
        requires
            old(self).received + n <= old(self).max,
        ensures
            final(self).received == old(self).received + n,
            final(self).max == old(self).max,
    {
        self.received = self.received + n;
    }

    /// Whether the whole transfer has been read.
    pub fn is_done(&self) -> (b: bool)
        ensures
            b == (self.received >= self.max),
    {
        self.received >= self.max
    }
}

/// State of the display thread between passes.
pub struct DisplayState {
    pub mode: DisplayMode,
    /// Position shown on the value screen; `u16::MAX` until the first one.
    pub last_pos: u16,
}

impl DisplayState {
    /// The thread starts on the value screen with no position shown.
    pub fn new() -> (s: Self)
        ensures
            s.mode == DisplayMode::Value,
            s.last_pos == u16::MAX,
    {
        DisplayState { mode: DisplayMode::Value, last_pos: u16::MAX }
    }

    /// Switches to `mode`. Returns whether the screen must be rebuilt,
    /// which is exactly when the mode changes.
    pub fn switch_mode(&mut self, mode: DisplayMode) -> (rebuild: bool)
        ensures
            rebuild == (mode != old(self).mode),
            final(self).mode == mode,
            final(self).last_pos == old(self).last_pos,
    {
        if mode == self.mode {
            return false;
        }
        self.mode = mode;
        true
    }

    /// Takes the latest position snapshot of this pass, if any. Returns the
    /// position to show when it differs from the one on screen.
    pub fn take_position(&mut self, latest: Option<u16>) -> (show: Option<u16>)
        ensures
            final(self).mode == old(self).mode,
            match latest {
                Some(p) if p != old(self).last_pos => show == Some(p) && final(self).last_pos == p,
                _ => show is None && final(self).last_pos == old(self).last_pos,
            },
    {
        match latest {
            Some(p) => {
                if p != self.last_pos {
                    self.last_pos = p;
                    Some(p)
                } else {
                    None
                }
            },
            None => None,
        }
    }
}

/// The progress arc of the media screen for a track: range 0..duration and
/// value at the position, or unchanged (`None`) when the duration is unknown.
pub fn media_arc(duration_s: u32, position_s: u32) -> (arc: Option<(i32, i32)>)
    ensures
        duration_s == 0 ==> arc is None,
        duration_s > 0 ==> arc == Some((duration_s as i32, position_s as i32)),
{
    if duration_s > 0 {
        Some((duration_s as i32, position_s as i32))
    } else {
        None
    }
}

/// The text of the position readout: the position in decimal.
pub fn position_text(pos: u16) -> (s: String)
    ensures
        s@ == decimal(pos as nat),
{
    let mut s = String::new();
    push_decimal(&mut s, pos as u64);
    assert(s@ =~= decimal(pos as nat));
    s
}

} // verus!
