//! The listing of the capture interfaces.

use vstd::prelude::*;
use crate::text::push_text;

verus! {

/// A capture interface: its name and, where the system has one, its
/// description.
#[derive(Debug)]
pub struct Device {
    pub name: String,
    pub desc: Option<String>,
}

/// The line of one interface in the listing: `- name (description)`, or
/// `- name` without a description.
pub open spec fn device_text(name: Seq<char>, desc: Option<Seq<char>>) -> Seq<char> {
    match desc {
        Some(d) => seq!['-', ' '] + name + seq![' ', '('] + d + seq![')'],
        None => seq!['-', ' '] + name,
    }
}

impl Device {
    /// The description as text, where there is one.
    pub open spec fn desc_view(&self) -> Option<Seq<char>> {
        match self.desc {
            Some(d) => Some(d@),
            None => None,
        }
    }

    /// The line of this interface in the listing.
    pub fn line(&self) -> (line: String)
        ensures
            line@ == device_text(self.name@, self.desc_view()),
    {
        let mut out = String::new();
        out.push('-');
        out.push(' ');
        push_text(&mut out, self.name.as_str());
        if let Some(d) = &self.desc {
            out.push(' ');
            out.push('(');
            push_text(&mut out, d.as_str());
            out.push(')');
        }
        assert(out@ =~= device_text(self.name@, self.desc_view()));
        out
    }
}

/// Lists the capture interfaces.
#[derive(Clone, Copy, Debug)]
pub struct DeviceManager;

impl DeviceManager {
    /// The listing of the given interfaces: a heading, then one line for
    /// each interface, in the order given.
    pub fn list_devices(devices: &Vec<Device>) -> (lines: Vec<String>)
        ensures
            lines@.len() == devices@.len() + 1,
            lines@[0]@ == "Available interfaces:"@,
            forall|i: int|
                0 <= i < devices@.len() ==> (#[trigger] lines@[i + 1])@ == device_text(
                    devices@[i].name@,
                    devices@[i].desc_view(),
                ),
    {
        let mut lines: Vec<String> = Vec::new();
        lines.push(String::from_str("Available interfaces:"));
        let mut k: usize = 0;
        while k < devices.len()
            invariant
                k <= devices@.len(),
                lines@.len() == k + 1,
                lines@[0]@ == "Available interfaces:"@,
                forall|i: int|
                    0 <= i < k ==> (#[trigger] lines@[i + 1])@ == device_text(
                        devices@[i].name@,
                        devices@[i].desc_view(),
                    ),
            decreases devices@.len() - k,
        {
            lines.push(devices[k].line());
            k = k + 1;
        }
        lines
    }
}

} // verus!
