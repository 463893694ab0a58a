//! The command line, as values, and the session that a command asks for.

use vstd::prelude::*;
use crate::capture::{valid_node_id, PacketCapture, SetupError};

verus! {

/// The parsed command line.
#[derive(Debug)]
pub struct Cli {
    pub command: Commands,
}

/// What the program is asked to do.
#[derive(Debug)]
pub enum Commands {
    /// List all available network interfaces.
    List,
    /// Capture packets from a specific interface.
    Capture {
        /// Name of the interface to capture from.
        interface: String,
        /// Save captured packets to a capture file.
        save: bool,
        /// Output directory for capture files.
        output_dir: String,
        /// Address of the message bus; publishing is on where it is given.
        nats_server: Option<String>,
        /// Node id for the message headers.
        node_id: Option<String>,
        /// Subject to publish to.
        subject: String,
    },
}

impl Commands {
    /// The session that the command asks for: none for `List`; for
    /// `Capture` one on its interface, with the capture file where `save`
    /// is set and publishing where a server is given. A node id that is
    /// not valid is refused, but only where publishing is asked for.
    pub fn session(&self) -> (r: Result<Option<PacketCapture>, SetupError>)
        ensures
            match *self {
                Commands::List => r == Ok::<Option<PacketCapture>, SetupError>(None),
                Commands::Capture { interface, save, output_dir, nats_server, node_id, subject } => {
                    let refused = nats_server is Some && node_id is Some && !valid_node_id(
                        node_id->Some_0@,
                    );
                    &&& r is Err <==> refused
                    &&& r is Err ==> r->Err_0 == SetupError::InvalidNodeId
                    &&& r is Ok ==> {
                        &&& r->Ok_0 is Some
                        &&& r->Ok_0->Some_0.wf()
                        &&& r->Ok_0->Some_0.interface@ == interface@
                        &&& r->Ok_0->Some_0.save_to_file == save
                        &&& r->Ok_0->Some_0.output_dir@ == (if save {
                            output_dir@
                        } else {
                            "."@
                        })
                        &&& r->Ok_0->Some_0.nats_enabled == (nats_server is Some)
                        &&& r->Ok_0->Some_0.node_id_view() == (if nats_server is Some {
                            match node_id {
                                Some(id) => Some(id@),
                                None => None,
                            }
                        } else {
                            None
                        })
                        &&& r->Ok_0->Some_0.subject@ == (if nats_server is Some {
                            subject@
                        } else {
                            "network.packets"@
                        })
                    }
                },
            },
    {
        match self {
            Commands::List => Ok(None),
            Commands::Capture { interface, save, output_dir, nats_server, node_id, subject } => {
                let mut capture = match PacketCapture::new(interface.as_str()) {
                    Ok(c) => c,
                    Err(e) => {
                        return Err(e);
                    },
                };
                if *save {
                    capture.set_save_options(output_dir.as_str());
                }
                if nats_server.is_some() {
                    match capture.set_nats_options(node_id, subject.as_str()) {
                        Ok(()) => {},
                        Err(e) => {
                            return Err(e);
                        },
                    }
                }
                Ok(Some(capture))
            },
        }
    }
}

} // verus!
