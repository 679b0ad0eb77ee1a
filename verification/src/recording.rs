//! The microphone session: whether a recording is running and for which
//! shortcut, whether the input stream is open, and what the recorder must do
//! on each request. The recorder itself is driven by the caller.

use vstd::prelude::*;

verus! {

broadcast use vstd::string::group_string_axioms;

/// Samples per second of recorded audio.
pub const WHISPER_SAMPLE_RATE: u32 = 16000;

/// Whether a recording runs, and for which shortcut binding.
#[derive(Debug)]
pub enum RecordingState {
    Idle,
    Recording { binding_id: String },
}

impl Clone for RecordingState {
    fn clone(&self) -> (r: Self)
        ensures
            r == *self,
    {
        match self {
            RecordingState::Idle => RecordingState::Idle,
            RecordingState::Recording { binding_id } => RecordingState::Recording {
                binding_id: binding_id.clone(),
            },
        }
    }
}

/// The binding a state records for, if it records.
pub open spec fn recording_for(state: RecordingState) -> Option<Seq<char>> {
    match state {
        RecordingState::Idle => None,
        RecordingState::Recording { binding_id } => Some(binding_id@),
    }
}

/// Recorder calls that closing the input stream takes.
pub struct StreamClose {
    /// Stop the running capture first.
    pub stop_capture: bool,
    /// Close the recorder's stream.
    pub close_recorder: bool,
}

/// Recorder calls that ending a recording takes.
pub struct RecordingEnd {
    /// Stop the capture (keeping its samples when stopping, dropping them when
    /// cancelling).
    pub stop_capture: bool,
    /// Then close the recorder's stream.
    pub close_recorder: bool,
}

/// The session state of the microphone.
pub struct AudioRecordingManager {
    state: RecordingState,
    has_recorder: bool,
    is_open: bool,
    is_recording: bool,
}

impl AudioRecordingManager {
    /// A capture runs only on an open stream, a stream is open only on an
    /// existing recorder, a capture runs only while a recording is on, and a
    /// recording is on only with a recorder.
    #[verifier::type_invariant]
    spec fn consistent(self) -> bool {
        &&& self.is_recording ==> self.is_open
        &&& self.is_open ==> self.has_recorder
        &&& self.is_recording ==> self.state is Recording
        &&& self.state is Recording ==> self.has_recorder
    }

    /// The binding being recorded for, if a recording is on.
    pub closed spec fn active(self) -> Option<Seq<char>> {
        recording_for(self.state)
    }

    /// Whether the recorder has been created.
    pub closed spec fn recorder_ready(self) -> bool {
        self.has_recorder
    }

    /// Whether the input stream is open.
    pub closed spec fn stream_open(self) -> bool {
        self.is_open
    }

    /// Whether the recorder is capturing.
    pub closed spec fn capturing(self) -> bool {
        self.is_recording
    }

    /// The laws every session keeps: a capture runs only on an open stream
    /// and while a recording is on; a stream is open only on a recorder; a
    /// recording is on only with a recorder.
    pub open spec fn laws_hold(self) -> bool {
        &&& self.capturing() ==> self.stream_open()
        &&& self.stream_open() ==> self.recorder_ready()
        &&& self.capturing() ==> self.active() is Some
        &&& self.active() is Some ==> self.recorder_ready()
    }

    /// Every session keeps `laws_hold`.
    pub fn check_laws(&self) -> (b: bool)
        ensures
            b,
            self.laws_hold(),
    {
        proof {
            use_type_invariant(self);
        }
        true
    }

    /// No recording, no recorder, stream closed.
    pub fn new() -> (m: Self)
        ensures
            m.active() is None,
            !m.recorder_ready(),
            !m.stream_open(),
            !m.capturing(),
            m.laws_hold(),
    {
        AudioRecordingManager {
            state: RecordingState::Idle,
            has_recorder: false,
            is_open: false,
            is_recording: false,
        }
    }

    /// Muting is not done by this app.
    pub fn apply_mute(&self) {
    }

    /// Muting is not done by this app.
    pub fn remove_mute(&self) {
    }

    /// Whether a recording is on.
    pub fn is_recording(&self) -> (b: bool)
        ensures
            b == self.active() is Some,
    {
        match self.state {
            RecordingState::Idle => false,
            RecordingState::Recording { .. } => true,
        }
    }

    /// Whether the recorder is still to be created.
    pub fn needs_recorder(&self) -> (b: bool)
        ensures
            b == !self.recorder_ready(),
    {
        !self.has_recorder
    }

    /// Whether the input stream is open.
    pub fn is_stream_open(&self) -> (b: bool)
        ensures
            b == self.stream_open(),
    {
        self.is_open
    }

    /// First step of starting a recording: refused while one is on; else
    /// tells whether the input stream must be opened first.
    pub fn begin_recording(&self) -> (r: Result<bool, String>)
        ensures
            self.active() is Some ==> (r matches Err(e) && e@ == "Already recording"@),
            self.active() is None ==> r == Ok::<bool, String>(!self.stream_open()),
    {
        match self.state {
            RecordingState::Idle => Ok(!self.is_open),
            RecordingState::Recording { .. } => Err("Already recording".to_string()),
        }
    }

    /// Whether a stream can be opened: on the selected microphone when it is
    /// found, else on a default one when any input device exists.
    pub fn check_input_devices(selected_found: bool, any_device: bool) -> (r: Result<(), String>)
        ensures
            (selected_found || any_device) <==> r is Ok,
            r matches Err(e) ==> e@ == "No input device found"@,
    {
        if !selected_found && !any_device {
            Err("No input device found".to_string())
        } else {
            Ok(())
        }
    }

    /// The recorder now exists.
    pub fn recorder_created(&mut self)
        ensures
            final(self).recorder_ready(),
            final(self).active() == old(self).active(),
            final(self).stream_open() == old(self).stream_open(),
            final(self).capturing() == old(self).capturing(),
            final(self).laws_hold(),
    {
        proof {
            use_type_invariant(&*self);
        }
        self.has_recorder = true;
    }

    /// The recorder's stream is now open.
    pub fn stream_opened(&mut self)
        requires
            old(self).recorder_ready(),
        ensures
            final(self).stream_open(),
            final(self).recorder_ready(),
            final(self).active() == old(self).active(),
            final(self).capturing() == old(self).capturing(),
            final(self).laws_hold(),
    {
        proof {
            use_type_invariant(&*self);
        }
        self.is_open = true;
    }

    /// Last step of starting a recording for `binding_id` on an open stream:
    /// when the capture started, the recording is on; else it is refused.
    pub fn finish_start(&mut self, binding_id: &str, capture_started: bool) -> (r: Result<(), String>)
        requires
            old(self).active() is None,
            old(self).stream_open(),
        ensures
            capture_started ==> r is Ok && final(self).active() == Some(binding_id@)
                && final(self).capturing() && final(self).stream_open(),
            !capture_started ==> (r matches Err(e) && e@ == "Recorder not available"@),
            !capture_started ==> final(self).active() == old(self).active() && final(self).capturing() == old(self).capturing() && final(self).stream_open(),
            final(self).recorder_ready() == old(self).recorder_ready(),
            final(self).laws_hold(),
    {
        proof {
            use_type_invariant(&*self);
        }
        if capture_started {
            self.state = RecordingState::Recording { binding_id: binding_id.to_string() };
            self.is_recording = true;
            Ok(())
        } else {
            Err("Recorder not available".to_string())
        }
    }

    /// Closes the input stream, stopping a running capture first.
    pub fn close_stream(&mut self) -> (c: StreamClose)
        ensures
            c.stop_capture == old(self).capturing(),
            c.close_recorder == old(self).stream_open(),
            !final(self).stream_open(),
            !final(self).capturing(),
            final(self).active() == old(self).active(),
            final(self).recorder_ready() == old(self).recorder_ready(),
            final(self).laws_hold(),
    {
        proof {
            use_type_invariant(&*self);
        }
        if !self.is_open {
            return StreamClose { stop_capture: false, close_recorder: false };
        }
        let stop_capture = self.is_recording;
        self.is_recording = false;
        self.is_open = false;
        StreamClose { stop_capture, close_recorder: true }
    }

    /// The microphone choice changed: an open stream is closed, to be opened
    /// again on the new device; none otherwise.
    pub fn update_selected_device(&mut self) -> (c: Option<StreamClose>)
        ensures
            old(self).stream_open() ==> (c matches Some(cl) && cl.close_recorder && cl.stop_capture
                == old(self).capturing()),
            old(self).stream_open() ==> !final(self).stream_open() && !final(self).capturing(),
            !old(self).stream_open() ==> c is None && final(self).stream_open() == old(self).stream_open() && final(self).capturing() == old(self).capturing(),
            final(self).active() == old(self).active(),
            final(self).recorder_ready() == old(self).recorder_ready(),
            final(self).laws_hold(),
    {
        proof {
            use_type_invariant(&*self);
        }
        if self.is_open {
            Some(self.close_stream())
        } else {
            None
        }
    }

    /// Ends the recording for `binding_id`, keeping its samples. A request for
    /// another binding, or with no recording on, changes nothing.
    pub fn stop_recording(&mut self, binding_id: &str) -> (e: Option<RecordingEnd>)
        ensures
            old(self).active() == Some(binding_id@) ==> (e matches Some(end) && end.stop_capture
                && end.close_recorder == old(self).stream_open()),
            old(self).active() == Some(binding_id@) ==> final(self).active() is None && !final(self).stream_open() && !final(self).capturing(),
            old(self).active() != Some(binding_id@) ==> e is None && final(self).active() == old(self).active() && final(self).stream_open() == old(self).stream_open() && final(self).capturing() == old(self).capturing(),
            final(self).recorder_ready() == old(self).recorder_ready(),
            final(self).laws_hold(),
    {
        proof {
            use_type_invariant(&*self);
        }
        let matches = match &self.state {
            RecordingState::Recording { binding_id: active } => *active == binding_id.to_string(),
            RecordingState::Idle => false,
        };
        if !matches {
            return None;
        }
        let was_open = self.is_open;
        self.is_recording = false;
        self.is_open = false;
        self.state = RecordingState::Idle;
        Some(RecordingEnd { stop_capture: self.has_recorder, close_recorder: was_open })
    }

    /// Drops the recording in progress, if any.
    pub fn cancel_recording(&mut self) -> (e: Option<RecordingEnd>)
        ensures
            old(self).active() is Some ==> (e matches Some(end) && end.stop_capture && end.close_recorder == old(self).stream_open()),
            old(self).active() is Some ==> final(self).active() is None && !final(self).stream_open() && !final(self).capturing(),
            old(self).active() is None ==> e is None && final(self).stream_open() == old(self).stream_open() && final(self).capturing() == old(self).capturing() && final(self).active() is None,
            final(self).recorder_ready() == old(self).recorder_ready(),
            final(self).laws_hold(),
    {
        proof {
            use_type_invariant(&*self);
        }
        match self.state {
            RecordingState::Idle => None,
            RecordingState::Recording { .. } => {
                let was_open = self.is_open;
                self.is_recording = false;
                self.is_open = false;
                self.state = RecordingState::Idle;
                Some(RecordingEnd { stop_capture: self.has_recorder, close_recorder: was_open })
            },
        }
    }
}

/// The number of samples handed to transcription for a recording of `len`
/// samples: a recording shorter than one second (but not empty) is padded
/// with silence to a second and a quarter.
pub open spec fn padded_len(len: nat) -> nat {
    if 0 < len < WHISPER_SAMPLE_RATE {
        (WHISPER_SAMPLE_RATE * 5 / 4) as nat
    } else {
        len
    }
}

/// Computes `padded_len`.
pub fn padded_sample_count(len: usize) -> (n: usize)
    ensures
        n == padded_len(len as nat),
        0 < len < 16000 ==> n == 20000,
        len == 0 || len >= 16000 ==> n == len,
{
    if len < WHISPER_SAMPLE_RATE as usize && len > 0 {
        (WHISPER_SAMPLE_RATE * 5 / 4) as usize
    } else {
        len
    }
}

/// `samples` padded with `zero` to `padded_len` samples: a recording shorter
/// than one second (but not empty) gets silence appended.
pub fn pad_samples<T: Copy>(samples: Vec<T>, zero: T) -> (r: Vec<T>)
    ensures
        r@.len() == padded_len(samples@.len()),
        forall|i: int| 0 <= i < samples@.len() ==> r@[i] == samples@[i],
        forall|i: int| samples@.len() <= i < r@.len() ==> r@[i] == zero,
{
    let target = padded_sample_count(samples.len());
    let mut padded = samples;
    let ghost original = padded@;
    while padded.len() < target
        invariant
            original.len() <= padded@.len() <= target,
            target == padded_len(original.len()),
            forall|i: int| 0 <= i < original.len() ==> padded@[i] == original[i],
            forall|i: int| original.len() <= i < padded@.len() ==> padded@[i] == zero,
        decreases target - padded@.len(),
    {
        padded.push(zero);
    }
    padded
}

/// The index of the input device named `selected`, the first one when
/// several have that name; none when no name is selected or no device has it.
pub fn select_input_device(names: &Vec<String>, selected: Option<&str>) -> (r: Option<usize>)
    ensures
        selected is None ==> r is None,
        selected matches Some(name) ==> match r {
            Some(i) => i < names@.len() && names@[i as int]@ == name@ && forall|j: int|
                0 <= j < i ==> (#[trigger] names@[j])@ != name@,
            None => forall|j: int| 0 <= j < names@.len() ==> (#[trigger] names@[j])@ != name@,
        },
{
    let name = match selected {
        Some(name) => name.to_string(),
        None => return None,
    };
    let mut i: usize = 0;
    while i < names.len()
        invariant
            i <= names@.len(),
            selected matches Some(s) && s@ == name@,
            forall|j: int| 0 <= j < i ==> (#[trigger] names@[j])@ != name@,
        decreases names@.len() - i,
    {
        if names[i] == name {
            return Some(i);
        }
        i += 1;
    }
    None
}

} // verus!
