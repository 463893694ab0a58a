//! The configuration of a capture session and what the session derives
//! from it: the record of each frame, the message headers, the name of the
//! capture file and the active sinks.

use vstd::prelude::*;
use vstd::slice::slice_to_vec;
use crate::clock::{file_stamp_text, local_now, timestamp_text, LocalTime};
use crate::frame::{slice_ethernet, sliced_layers};
use crate::packet::{decode, decoded, display_text, PacketData};
use crate::headers::{build_headers, header_entries, headers_allowed, message_headers};
use crate::sink::{CaptureLoop, LoopState, SinkError, SinkRouter};
use crate::text::push_text;

verus! {

/// Why a session could not be set up. Each is fatal: capture does not
/// start.
#[derive(Clone, Copy, PartialEq, Eq, Structural, Debug)]
pub enum SetupError {
    InvalidInterface,
    InvalidNodeId,
    BusConnection,
    OutputDirectory,
}

impl SetupError {
    /// What is said to the user on this error.
    pub fn describe(&self) -> (message: &'static str)
        ensures
            message@ == match *self {
                SetupError::InvalidInterface => "Failed to open device"@,
                SetupError::InvalidNodeId =>
                    "Node ID must be 8 characters matching pattern [_a-zA-Z0-9]{8}"@,
                SetupError::BusConnection => "Failed to connect to the message bus"@,
                SetupError::OutputDirectory => "Failed to create save file"@,
            },
    {
        match self {
            SetupError::InvalidInterface => "Failed to open device",
            SetupError::InvalidNodeId =>
                "Node ID must be 8 characters matching pattern [_a-zA-Z0-9]{8}",
            SetupError::BusConnection => "Failed to connect to the message bus",
            SetupError::OutputDirectory => "Failed to create save file",
        }
    }
}

/// Whether a character may stand in a node id: an ASCII letter, an ASCII
/// digit or an underscore.
pub open spec fn is_node_char(c: char) -> bool {
    ||| 'a' as u32 <= c as u32 <= 'z' as u32
    ||| 'A' as u32 <= c as u32 <= 'Z' as u32
    ||| '0' as u32 <= c as u32 <= '9' as u32
    ||| c == '_'
}

/// Whether a text is a node id: exactly 8 characters, each of which may
/// stand in one.
pub open spec fn valid_node_id(id: Seq<char>) -> bool {
    &&& id.len() == 8
    &&& forall|i: int| 0 <= i < id.len() ==> is_node_char(#[trigger] id[i])
}

/// A capture file's path: the directory, a `/` unless the directory is
/// empty or ends in one, and the file's name.
pub open spec fn joined_path(dir: Seq<char>, name: Seq<char>) -> Seq<char> {
    if dir.len() == 0 || dir.last() == '/' {
        dir + name
    } else {
        dir + seq!['/'] + name
    }
}

/// The name of the capture file of a session that started at `now`.
pub open spec fn dump_name(now: LocalTime) -> Seq<char> {
    seq!['d', 'u', 'm', 'p', '_'] + file_stamp_text(now) + seq!['.', 'p', 'c', 'a', 'p']
}

/// Appends the name of the capture file of a session that started at
/// `now`.
fn push_dump_name(out: &mut String, now: &LocalTime)
    ensures
        final(out)@ == old(out)@ + dump_name(*now),
{
    out.push('d');
    out.push('u');
    out.push('m');
    out.push('p');
    out.push('_');
    assert(out@ =~= old(out)@ + seq!['d', 'u', 'm', 'p', '_']);
    let stamp = now.file_stamp();
    push_text(out, stamp.as_str());
    assert(out@ =~= old(out)@ + (seq!['d', 'u', 'm', 'p', '_'] + file_stamp_text(*now)));
    let ghost named = out@;
    out.push('.');
    out.push('p');
    out.push('c');
    out.push('a');
    out.push('p');
    assert(out@ =~= named + seq!['.', 'p', 'c', 'a', 'p']);
    assert(out@ =~= old(out)@ + dump_name(*now));
}

/// Whether a character may stand in a node id.
pub fn node_char(c: char) -> (ok: bool)
    ensures
        ok == is_node_char(c),
{
    let code: u32 = c as u32;
    (97 <= code && code <= 122) || (65 <= code && code <= 90) || (48 <= code && code <= 57)
        || code == 95
}

/// The configuration of a capture session.
#[derive(Debug)]
pub struct PacketCapture {
    pub interface: String,
    pub save_to_file: bool,
    pub output_dir: String,
    pub nats_enabled: bool,
    pub node_id: Option<String>,
    pub subject: String,
}

impl PacketCapture {
    /// A configured node id is a valid one.
    pub open spec fn wf(&self) -> bool {
        match self.node_id {
            Some(id) => valid_node_id(id@),
            None => true,
        }
    }

    /// The node id as text, where one is configured.
    pub open spec fn node_id_view(&self) -> Option<Seq<char>> {
        match self.node_id {
            Some(id) => Some(id@),
            None => None,
        }
    }

    /// A session on `interface` that only displays: no capture file, no
    /// message bus, the current directory and the subject
    /// `network.packets`.
    pub fn new(interface: &str) -> (r: Result<Self, SetupError>)
        ensures
            r is Ok,
            r->Ok_0.interface@ == interface@,
            !r->Ok_0.save_to_file,
            r->Ok_0.output_dir@ == "."@,
            !r->Ok_0.nats_enabled,
            r->Ok_0.node_id is None,
            r->Ok_0.subject@ == "network.packets"@,
            r->Ok_0.wf(),
    {
        Ok(
            PacketCapture {
                interface: String::from_str(interface),
                save_to_file: false,
                output_dir: String::from_str("."),
                nats_enabled: false,
                node_id: None,
                subject: String::from_str("network.packets"),
            },
        )
    }

    /// Turns the capture file on, in the directory `output_dir`.
    pub fn set_save_options(&mut self, output_dir: &str)
        ensures
            final(self).save_to_file,
            final(self).output_dir@ == output_dir@,
            final(self).interface == old(self).interface,
            final(self).nats_enabled == old(self).nats_enabled,
            final(self).node_id == old(self).node_id,
            final(self).subject == old(self).subject,
            old(self).wf() ==> final(self).wf(),
    {
        self.save_to_file = true;
        self.output_dir = String::from_str(output_dir);
    }

    /// Whether `node_id` is exactly 8 characters, each an ASCII letter, an
    /// ASCII digit or an underscore.
    pub fn is_valid_node_id(node_id: &str) -> (ok: bool)
        ensures
            ok == valid_node_id(node_id@),
    {
        if node_id.unicode_len() != 8 {
            return false;
        }
        let mut i: usize = 0;
        while i < 8
            invariant
                i <= 8,
                node_id@.len() == 8,
                forall|k: int| 0 <= k < i ==> is_node_char(#[trigger] node_id@[k]),
            decreases 8 - i,
        {
            if !node_char(node_id.get_char(i)) {
                return false;
            }
            i = i + 1;
        }
        true
    }

    /// Turns publishing on, to `subject` and under `node_id`. An invalid
    /// node id is refused and leaves the session as it was.
    pub fn set_nats_options(&mut self, node_id: &Option<String>, subject: &str) -> (r: Result<
        (),
        SetupError,
    >)
        ensures
            r is Err <==> (node_id is Some && !valid_node_id(node_id->Some_0@)),
            r is Err ==> r->Err_0 == SetupError::InvalidNodeId && *final(self) == *old(self),
            r is Ok ==> {
                &&& final(self).nats_enabled
                &&& final(self).node_id_view() == match *node_id {
                    Some(id) => Some(id@),
                    None => None,
                }
                &&& final(self).subject@ == subject@
                &&& final(self).interface == old(self).interface
                &&& final(self).save_to_file == old(self).save_to_file
                &&& final(self).output_dir == old(self).output_dir
                &&& final(self).wf()
            },
    {
        let copy = match node_id {
            Some(id) => {
                if !Self::is_valid_node_id(id.as_str()) {
                    return Err(SetupError::InvalidNodeId);
                }
                Some(id.clone())
            },
            None => None,
        };
        self.nats_enabled = true;
        self.node_id = copy;
        self.subject = String::from_str(subject);
        Ok(())
    }

    /// Starts the capture loop of the session: it is running, and its
    /// sinks are the display always, the capture file and the message bus
    /// where they were turned on.
    pub fn start_capture(&self) -> (started: CaptureLoop)
        ensures
            started.state == LoopState::Running,
            started.router == (SinkRouter {
                display: true,
                file: self.save_to_file,
                bus: self.nats_enabled,
            }),
    {
        CaptureLoop {
            state: LoopState::Running,
            router: SinkRouter { display: true, file: self.save_to_file, bus: self.nats_enabled },
        }
    }

    /// The headers of the message that publishes `info`: the node id where
    /// one is configured, the interface and the record's timestamp. A sink
    /// error, and no headers, where one of them holds a line break.
    pub fn nats_headers(&self, info: &PacketData) -> (r: Result<async_nats::HeaderMap, SinkError>)
        ensures
            r is Ok <==> headers_allowed(self.node_id_view(), self.interface@, info.timestamp@),
            r is Err ==> r->Err_0 == SinkError::BusPublish,
            r is Ok ==> header_entries(r->Ok_0) == message_headers(
                self.node_id_view(),
                self.interface@,
                info.timestamp@,
            ),
    {
        match build_headers(&self.node_id, self.interface.as_str(), info.timestamp.as_str()) {
            Some(headers) => Ok(headers),
            None => Err(SinkError::BusPublish),
        }
    }

    /// The path of the capture file of a session that started at `now`.
    pub fn output_filename_at(&self, now: &LocalTime) -> (path: String)
        ensures
            path@ == joined_path(self.output_dir@, dump_name(*now)),
    {
        let mut path = self.output_dir.clone();
        let len = self.output_dir.as_str().unicode_len();
        if len > 0 && self.output_dir.as_str().get_char(len - 1) != '/' {
            path.push('/');
        }
        push_dump_name(&mut path, now);
        path
    }

    /// The path of the capture file of a session that starts now.
    pub fn get_output_filename(&self) -> (path: String)
        ensures
            exists|now: LocalTime|
                now.wf() && path@ == joined_path(self.output_dir@, #[trigger] dump_name(now)),
    {
        let now = local_now();
        self.output_filename_at(&now)
    }

    /// Decodes a frame that was captured now: slices it into its layers
    /// and makes the record from them. The frame's bytes go into the
    /// record only where the session publishes.
    pub fn parse_packet(&self, frame: &[u8], captured_len: u32) -> (info: PacketData)
        ensures
            info@ == decoded(
                sliced_layers(frame@),
                captured_len as nat,
                info@.timestamp,
                if self.nats_enabled {
                    frame@
                } else {
                    Seq::empty()
                },
            ),
            exists|now: LocalTime| now.wf() && info@.timestamp == #[trigger] timestamp_text(now),
    {
        let now = local_now();
        let layers = slice_ethernet(frame);
        let raw_data = if self.nats_enabled {
            slice_to_vec(frame)
        } else {
            Vec::new()
        };
        decode(&layers, captured_len, now.timestamp(), raw_data)
    }

    /// The line that shows `info` on the live display.
    pub fn display_packet(&self, info: &PacketData) -> (line: String)
        ensures
            line@ == display_text(info@),
    {
        info.display_line()
    }
}

} // verus!
