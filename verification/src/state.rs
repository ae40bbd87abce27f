//! The per-thread frontend context, as plain data: the callbacks the core
//! fires during `retro_run` are decided here. The unverified shell owns the
//! raw pointers (current frame, host buffers) and forwards every decision —
//! what to record, what to answer, what to clear — to these transitions.

use vstd::prelude::*;

use crate::buttons::Buttons;
use crate::buttons::mask_bit;
use crate::framebuffer::PixelFormat;
use crate::memmap::MemoryDescriptor;

verus! {

/// The joypad device kind in the libretro input ABI.
pub const DEVICE_JOYPAD: u32 = 1;

/// The id that asks for all sixteen buttons packed into one result.
pub const JOYPAD_ID_MASK: u32 = 16;

/// Everything the six libretro callbacks read or write, minus the raw
/// pointers. Present exactly while one emulator lives on the thread.
pub struct FrontendState {
    /// Audio of the current frame, interleaved stereo, accumulated across
    /// callbacks within one `retro_run` and cleared before the next.
    pub audio_sample: Vec<i16>,
    /// The input masks for the two supported ports.
    pub buttons: [Buttons; 2],
    /// Whether a button callback overrides the masks for this frame.
    pub button_override: bool,
    /// Whether a frame has been recorded since creation or the last reset.
    pub frame_present: bool,
    pub frame_width: u32,
    pub frame_height: u32,
    /// Bytes per frame row; the frame holds `frame_height * frame_pitch` bytes.
    pub frame_pitch: usize,
    /// The negotiated source pixel format of frames.
    pub pixfmt: PixelFormat,
    /// Bit depth of `pixfmt`, as negotiated (15, 16 or 32).
    pub image_depth: usize,
    /// The current memory-descriptor table, copied from the core.
    pub memory_map: Vec<MemoryDescriptor>,
}

impl FrontendState {
    /// The state installed at creation: no audio, no inputs, no frame, the
    /// libretro default pixel format, an empty descriptor table.
    pub fn new() -> (s: FrontendState)
        ensures
            s.audio_sample@ == Seq::<i16>::empty(),
            s.buttons[0].raw() == 0,
            s.buttons[1].raw() == 0,
            !s.button_override,
            !s.frame_present,
            s.frame_width == 0,
            s.frame_height == 0,
            s.frame_pitch == 0,
            s.pixfmt == PixelFormat::ZeroRGB1555,
            s.image_depth == 0,
            s.memory_map@ == Seq::<MemoryDescriptor>::empty(),
    {
        FrontendState {
            audio_sample: Vec::new(),
            buttons: [Buttons::new(), Buttons::new()],
            button_override: false,
            frame_present: false,
            frame_width: 0,
            frame_height: 0,
            frame_pitch: 0,
            pixfmt: PixelFormat::ZeroRGB1555,
            image_depth: 0,
            memory_map: Vec::new(),
        }
    }

    /// Prepare for one `retro_run` driven by input masks: clear the audio of
    /// the previous frame, install the inputs, drop any callback override.
    pub fn begin_frame(&mut self, inputs: [Buttons; 2])
        ensures
            final(self).audio_sample@ == Seq::<i16>::empty(),
            final(self).buttons == inputs,
            !final(self).button_override,
            final(self).frame_present == old(self).frame_present,
            final(self).frame_width == old(self).frame_width,
            final(self).frame_height == old(self).frame_height,
            final(self).frame_pitch == old(self).frame_pitch,
            final(self).pixfmt == old(self).pixfmt,
            final(self).image_depth == old(self).image_depth,
            final(self).memory_map@ == old(self).memory_map@,
    {
        self.audio_sample.clear();
        self.buttons = inputs;
        self.button_override = false;
    }

    /// Prepare for one `retro_run` driven by a button callback: clear the
    /// audio and mark the override installed.
    pub fn begin_frame_with_override(&mut self)
        ensures
            final(self).audio_sample@ == Seq::<i16>::empty(),
            final(self).buttons == old(self).buttons,
            final(self).button_override,
            final(self).frame_present == old(self).frame_present,
            final(self).frame_width == old(self).frame_width,
            final(self).frame_height == old(self).frame_height,
            final(self).frame_pitch == old(self).frame_pitch,
            final(self).pixfmt == old(self).pixfmt,
            final(self).image_depth == old(self).image_depth,
            final(self).memory_map@ == old(self).memory_map@,
    {
        self.audio_sample.clear();
        self.button_override = true;
    }

    /// Prepare for `retro_reset`: clear the audio, the inputs, any override,
    /// and forget the recorded frame.
    pub fn reset(&mut self)
        ensures
            final(self).audio_sample@ == Seq::<i16>::empty(),
            final(self).buttons[0].raw() == 0,
            final(self).buttons[1].raw() == 0,
            !final(self).button_override,
            !final(self).frame_present,
            final(self).frame_width == old(self).frame_width,
            final(self).frame_height == old(self).frame_height,
            final(self).frame_pitch == old(self).frame_pitch,
            final(self).pixfmt == old(self).pixfmt,
            final(self).image_depth == old(self).image_depth,
            final(self).memory_map@ == old(self).memory_map@,
    {
        self.audio_sample.clear();
        self.buttons = [Buttons::new(), Buttons::new()];
        self.button_override = false;
        self.frame_present = false;
    }

    /// Record one stereo sample pair, appended to the frame's audio.
    pub fn push_audio_sample(&mut self, left: i16, right: i16)
        ensures
            final(self).audio_sample@ == old(self).audio_sample@ + seq![left, right],
            final(self).buttons == old(self).buttons,
            final(self).button_override == old(self).button_override,
            final(self).frame_present == old(self).frame_present,
            final(self).frame_width == old(self).frame_width,
            final(self).frame_height == old(self).frame_height,
            final(self).frame_pitch == old(self).frame_pitch,
            final(self).pixfmt == old(self).pixfmt,
            final(self).image_depth == old(self).image_depth,
            final(self).memory_map@ == old(self).memory_map@,
    {
        self.audio_sample.push(left);
        self.audio_sample.push(right);
        proof {
            assert(self.audio_sample@ =~= old(self).audio_sample@ + seq![left, right]);
        }
    }

    /// Record a batch of interleaved samples, appended to the frame's audio.
    pub fn push_audio_batch(&mut self, samples: &[i16])
        ensures
            final(self).audio_sample@ == old(self).audio_sample@ + samples@,
            final(self).buttons == old(self).buttons,
            final(self).button_override == old(self).button_override,
            final(self).frame_present == old(self).frame_present,
            final(self).frame_width == old(self).frame_width,
            final(self).frame_height == old(self).frame_height,
            final(self).frame_pitch == old(self).frame_pitch,
            final(self).pixfmt == old(self).pixfmt,
            final(self).image_depth == old(self).image_depth,
            final(self).memory_map@ == old(self).memory_map@,
    {
        self.audio_sample.extend_from_slice(samples);
    }

    /// Answer the core's input-state query from the two stored masks, for any
    /// arguments whatever: ports other than 0 and 1, devices other than the
    /// joypad, index values other than 0, and ids beyond the button range all
    /// read as released, and the reserved id asks for the whole mask at once.
    /// Total, so the trampoline around it can never panic across the C ABI.
    pub fn input_state(&self, port: u32, device: u32, index: u32, id: u32) -> (r: i16)
        ensures
            port > 1 || device != DEVICE_JOYPAD || index != 0 ==> r == 0,
            port <= 1 && device == DEVICE_JOYPAD && index == 0 && id == JOYPAD_ID_MASK ==> r
                == self.buttons[port as int].raw(),
            port <= 1 && device == DEVICE_JOYPAD && index == 0 && id < JOYPAD_ID_MASK ==> r == (
            if mask_bit(self.buttons[port as int].raw(), id) {
                1i16
            } else {
                0i16
            }),
            port <= 1 && device == DEVICE_JOYPAD && index == 0 && id > JOYPAD_ID_MASK ==> r == 0,
    {
        if port > 1 || device != DEVICE_JOYPAD || index != 0 {
            return 0;
        }
        let p = port as usize;
        if id == JOYPAD_ID_MASK {
            i16::from(self.buttons[p])
        } else if id < JOYPAD_ID_MASK {
            if self.buttons[p].get(id) {
                1
            } else {
                0
            }
        } else {
            0
        }
    }

    /// Handle the pixel-format command: map the format word to its bit depth
    /// and record both, or reject an unknown word, leaving the state as it
    /// was and answering false.
    pub fn set_pixel_format(&mut self, raw: u32) -> (accepted: bool)
        ensures
            accepted == (PixelFormat::from_raw_spec(raw) != PixelFormat::Unknown),
            accepted ==> final(self).pixfmt == PixelFormat::from_raw_spec(raw)
                && final(self).image_depth == PixelFormat::from_raw_spec(raw).bit_depth_spec(),
            !accepted ==> final(self).pixfmt == old(self).pixfmt
                && final(self).image_depth == old(self).image_depth,
            final(self).audio_sample@ == old(self).audio_sample@,
            final(self).buttons == old(self).buttons,
            final(self).button_override == old(self).button_override,
            final(self).frame_present == old(self).frame_present,
            final(self).frame_width == old(self).frame_width,
            final(self).frame_height == old(self).frame_height,
            final(self).frame_pitch == old(self).frame_pitch,
            final(self).memory_map@ == old(self).memory_map@,
    {
        let fmt = PixelFormat::from_raw(raw);
        match fmt {
            PixelFormat::Unknown => false,
            _ => {
                self.image_depth = fmt.bit_depth();
                self.pixfmt = fmt;
                true
            },
        }
    }

    /// Handle the memory-map command: the core's descriptor table, already
    /// copied to owned values by the shell, replaces the previous one whole.
    pub fn set_memory_maps(&mut self, descs: Vec<MemoryDescriptor>)
        ensures
            final(self).memory_map@ == descs@,
            final(self).audio_sample@ == old(self).audio_sample@,
            final(self).buttons == old(self).buttons,
            final(self).button_override == old(self).button_override,
            final(self).frame_present == old(self).frame_present,
            final(self).frame_width == old(self).frame_width,
            final(self).frame_height == old(self).frame_height,
            final(self).frame_pitch == old(self).frame_pitch,
            final(self).pixfmt == old(self).pixfmt,
            final(self).image_depth == old(self).image_depth,
    {
        self.memory_map = descs;
    }

    /// Record a video refresh. `hw_frame` says the core rendered into its own
    /// framebuffer object (the sentinel data pointer): the shell must then own
    /// a pixel buffer of `frame_height * frame_pitch` bytes, reallocated
    /// whenever this returns true, and the format is forced to XRGB8888. A
    /// zero pitch is read as four bytes per pixel of the given width.
    pub fn video_refresh(&mut self, hw_frame: bool, width: u32, height: u32, pitch: usize) -> (
    realloc: bool)
        requires
            pitch == 0 ==> width * 4 <= usize::MAX,
        ensures
            ({
                let eff = if pitch == 0 {
                    (width * 4) as usize
                } else {
                    pitch
                };
                &&& final(self).frame_width == width
                &&& final(self).frame_height == height
                &&& final(self).frame_pitch == eff
                &&& realloc == (hw_frame && !(width == old(self).frame_width && height == old(self).frame_height && eff == old(self).frame_pitch))
                &&& final(self).pixfmt == if hw_frame {
                    PixelFormat::XRGB8888
                } else {
                    old(self).pixfmt
                }
                &&& final(self).frame_present == (old(self).frame_present || !hw_frame || realloc)
            }),
            final(self).audio_sample@ == old(self).audio_sample@,
            final(self).buttons == old(self).buttons,
            final(self).button_override == old(self).button_override,
            final(self).image_depth == old(self).image_depth,
            final(self).memory_map@ == old(self).memory_map@,
    {
        let eff: usize = if pitch == 0 {
            (width as usize) * 4
        } else {
            pitch
        };
        let mut realloc = false;
        if hw_frame {
            self.pixfmt = PixelFormat::XRGB8888;
            if width != self.frame_width || height != self.frame_height || eff != self.frame_pitch
            {
                realloc = true;
                self.frame_present = true;
            }
        } else {
            self.frame_present = true;
        }
        self.frame_pitch = eff;
        self.frame_width = width;
        self.frame_height = height;
        realloc
    }
}

/// Whether a save or load may proceed: the caller's buffer must hold at least
/// the core's serialization size; a shorter one yields false without ever
/// reaching the core.
pub fn serialize_buffer_ok(buffer_len: usize, save_size: usize) -> (r: bool)
    ensures
        r == (buffer_len >= save_size),
{
    buffer_len >= save_size
}

/// One audio callback within a frame, as the core issues it: either a single
/// stereo pair or a batch of interleaved samples, two per stereo frame.
pub enum AudioEvent {
    Sample(i16, i16),
    Batch(Seq<i16>),
}

/// How many stereo frames a sequence of audio callbacks emits.
pub open spec fn stereo_frames(events: Seq<AudioEvent>) -> int
    decreases events.len(),
{
    if events.len() == 0 {
        0
    } else {
        stereo_frames(events.drop_last()) + (match events.last() {
            AudioEvent::Sample(_, _) => 1int,
            AudioEvent::Batch(s) => s.len() as int / 2,
        })
    }
}

/// The audio buffer after a sequence of callbacks has appended to `start`,
/// exactly as `push_audio_sample` and `push_audio_batch` do.
pub open spec fn audio_after(start: Seq<i16>, events: Seq<AudioEvent>) -> Seq<i16>
    decreases events.len(),
{
    if events.len() == 0 {
        start
    } else {
        audio_after(start, events.drop_last()) + (match events.last() {
            AudioEvent::Sample(l, r) => seq![l, r],
            AudioEvent::Batch(s) => s,
        })
    }
}

/// Audio accumulates rather than overwrites: a frame that begins with a
/// cleared buffer and sees any sequence of sample and batch callbacks — each
/// batch carrying two values per stereo frame — ends with exactly twice as
/// many buffered values as stereo frames the core emitted.
pub proof fn lemma_audio_accumulates(start: Seq<i16>, events: Seq<AudioEvent>)
    requires
        forall|i: int|
            0 <= i < events.len() ==> ((#[trigger] events[i]) matches AudioEvent::Batch(s) ==> s.len()
                % 2 == 0),
    ensures
        audio_after(start, events).len() == start.len() + 2 * stereo_frames(events),
    decreases events.len(),
{
    if events.len() > 0 {
        lemma_audio_accumulates(start, events.drop_last());
        assert(events[events.len() - 1] == events.last());
        match events.last() {
            AudioEvent::Sample(_, _) => {},
            AudioEvent::Batch(s) => {
                assert(s.len() == 2 * (s.len() / 2));
            },
        }
    }
}

} // verus!
