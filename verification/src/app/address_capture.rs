//! Capturing the board's own address live, over its platform monitor,
//! instead of asking the user to type it in: the board says it at every
//! boot, so the capture is attached when it does.

use vstd::prelude::*;
use vstd::string::*;

use crate::app;
use crate::app::{App, Model};
use crate::app::file_browser;
use crate::effect::{Effect, Task, TextTask};
use crate::overlay;
use crate::text;

verus! {

/// One in-flight address capture.
#[derive(Debug, Clone, PartialEq, Eq)]
pub struct AddressCapture<L = Vec<String>> {
    /// The session's process.
    pub process: u64,
    /// What the console shows, line by line.
    pub lines: L,
    /// The board was told to restart: once per capture.
    pub reset_sent: bool,
    /// An address was found.
    pub found: bool,
}

/// A capture with its lines as sequences of characters.
pub type CaptureModel = AddressCapture<Seq<Seq<char>>>;

impl AddressCapture<Vec<String>> {
    pub open spec fn model(self) -> CaptureModel {
        AddressCapture {
            process: self.process,
            lines: text::texts(self.lines@),
            reset_sent: self.reset_sent,
            found: self.found,
        }
    }

    /// A capture just started: nothing shown, nothing sent, nothing found.
    pub fn new(process: u64) -> (r: AddressCapture)
        ensures
            r.model() == fresh_capture(process),
    {
        let r = AddressCapture { process, lines: Vec::new(), reset_sent: false, found: false };
        assert(r.model().lines =~= Seq::<Seq<char>>::empty());
        r
    }
}

/// A capture just started.
pub open spec fn fresh_capture(process: u64) -> CaptureModel {
    AddressCapture { process, lines: Seq::empty(), reset_sent: false, found: false }
}

/// The monitor's keys that restart the board.
pub open spec fn reset_command() -> Seq<u8> {
    seq![0x14u8, 0x12u8]
}

/// The monitor said that it has the port.
pub open spec fn tool_ready(lines: Seq<Seq<char>>) -> bool {
    text::mentions(text::unlined(lines), "idf_monitor on"@)
}

impl Model {
    pub open spec fn with_capture(self, capture: Option<CaptureModel>) -> Model {
        Model { capture, ..self }
    }

    /// A capture is running, or one can be asked for.
    pub open spec fn capture_starts(self) -> bool {
        self.capture is Some || self.project.manager.spec_kind() is Some
    }

    /// The capture asked for. One already running is left alone.
    pub open spec fn capture_asked(self, then_ask: bool) -> Model {
        if self.capture is None && self.project.manager.spec_kind() is Some {
            self.task(Task::SpawnAddressCapture { then_ask })
        } else {
            self
        }
    }

    /// The capture started, or why it did not; then the address is asked of
    /// the user where the capture was to spare the question.
    pub open spec fn capture_answered(
        self,
        outcome: Result<u64, Option<Seq<char>>>,
        then_ask: bool,
    ) -> Model {
        match outcome {
            Ok(process) => self.info(
                "OTA: reading the board's address --- restarting it and watching the console"@,
            ).with_capture(Some(fresh_capture(process))),
            Err(reason) => {
                let m = match reason {
                    Some(e) => self.warn("OTA: cannot read the address: "@ + e),
                    None => self,
                };
                if then_ask {
                    m.address_asked()
                } else {
                    m
                }
            },
        }
    }

    /// What the console shows so far, `lines`: the board is restarted once the tool
    /// has the port, and the session ends on the line that names the address.
    pub open spec fn capture_read(
        self,
        lines: Seq<Seq<char>>,
        address: Option<Seq<char>>,
    ) -> Model {
        match self.capture {
            None => self,
            Some(capture) => {
                let reset = !capture.reset_sent && tool_ready(lines);
                let m = self.with_capture(
                    Some(
                        AddressCapture {
                            lines,
                            reset_sent: capture.reset_sent || reset,
                            found: address is Some,
                            ..capture
                        },
                    ),
                );
                let m = if reset {
                    m.emit(Effect::Stdin { id: capture.process, bytes: reset_command() })
                } else {
                    m
                };
                match address {
                    Some(address) => m.task(Task::Cancel(capture.process)).address_kept(
                        address,
                        true,
                    ),
                    None => m,
                }
            },
        }
    }

    /// The address asked to be recorded, as the typed one is.
    pub open spec fn address_kept(self, address: Seq<char>, captured: bool) -> Model {
        if self.panels.ota is Some {
            self.emit(Effect::Text(TextTask::SetOtaAddress { captured }, address))
        } else {
            self
        }
    }

    pub open spec fn address_answered(
        self,
        address: Seq<char>,
        captured: bool,
        failure: Option<Seq<char>>,
    ) -> Model {
        match failure {
            None => if captured {
                self.info("OTA: the board answers at "@ + address)
            } else {
                self
            },
            Some(e) => self.error("could not record the address: "@ + e),
        }
    }

    /// The session ended; a miss is reported.
    pub open spec fn capture_finished(self) -> Model {
        match self.capture {
            None => self,
            Some(capture) => {
                let m = self.with_capture(None);
                if capture.found {
                    m
                } else {
                    m.warn(
                        "OTA: the board printed no address --- turn on the address log in the prepare step, or type it by hand"@,
                    )
                }
            },
        }
    }
}

impl App {
    /// Starts a capture for the selected port; `false` when none can run,
    /// and the caller asks for the address instead.
    pub fn start_address_capture(&mut self, then_ask: bool) -> (r: bool)
        ensures
            r == old(self)@.capture_starts(),
            final(self)@ == old(self)@.capture_asked(then_ask),
    {
        reveal(app::opt_capture);
        if self.capture.is_some() {
            return true;
        }
        if self.project.manager.selected_kind().is_none() {
            return false;
        }
        self.task(Task::SpawnAddressCapture { then_ask });
        true
    }

    /// The capture asked for started, or could not.
    pub fn address_capture_started(
        &mut self,
        outcome: Result<u64, Option<String>>,
        then_ask: bool,
    )
        ensures
            final(self)@ == old(self)@.capture_answered(
                match outcome {
                    Ok(process) => Ok(process),
                    Err(reason) => Err(overlay::opt_text(reason)),
                },
                then_ask,
            ),
    {
        reveal(app::opt_capture);
        match outcome {
            Ok(process) => {
                self.info(
                    "OTA: reading the board's address --- restarting it and watching the console",
                );
                self.capture = Some(AddressCapture::new(process));
            },
            Err(reason) => {
                if let Some(e) = reason {
                    self.warn(text::join("OTA: cannot read the address: ", e.as_str()).as_str());
                }
                if then_ask {
                    self.ask_address();
                }
            },
        }
    }

    /// Takes what the capture's console shows, and the address in it.
    pub fn on_address_capture_output(&mut self, lines: Vec<String>, address: Option<String>)
        ensures
            final(self)@ == old(self)@.capture_read(
                text::texts(lines@),
                overlay::opt_text(address),
            ),
    {
        reveal(app::opt_capture);
        let (process, sent) = match &self.capture {
            Some(capture) => (capture.process, capture.reset_sent),
            None => {
                return;
            },
        };
        let transcript = text::join_lines(&lines);
        let reset: bool = !sent && text::contains(transcript.as_str(), "idf_monitor on");
        self.capture = Some(
            AddressCapture { process, lines, reset_sent: sent || reset, found: address.is_some() },
        );
        if reset {
            let mut bytes: Vec<u8> = Vec::new();
            bytes.push(0x14);
            bytes.push(0x12);
            assert(bytes@ =~= reset_command());
            self.emit(Effect::Stdin { id: process, bytes });
        }
        if let Some(address) = address {
            self.task(Task::Cancel(process));
            self.keep_address(address, true);
        }
    }

    pub(crate) fn keep_address(&mut self, address: String, captured: bool)
        ensures
            final(self)@ == old(self)@.address_kept(address@, captured),
    {
        if self.panels.ota.is_some() {
            self.emit(Effect::Text(TextTask::SetOtaAddress { captured }, address));
        }
    }

    /// The address was recorded, or could not be.
    pub fn address_recorded(&mut self, address: &str, captured: bool, outcome: Result<(), String>)
        ensures
            final(self)@ == old(self)@.address_answered(
                address@,
                captured,
                file_browser::failure_view(outcome),
            ),
    {
        match outcome {
            Ok(_) => {
                if captured {
                    self.info(text::join("OTA: the board answers at ", address).as_str());
                }
            },
            Err(e) => self.error(text::join("could not record the address: ", e.as_str()).as_str()),
        }
    }

    /// The capture's process exited.
    pub fn finish_address_capture(&mut self)
        ensures
            final(self)@ == old(self)@.capture_finished(),
    {
        reveal(app::opt_capture);
        let found: Option<bool> = match &self.capture {
            Some(capture) => Some(capture.found),
            None => None,
        };
        if let Some(found) = found {
            self.capture = None;
            if !found {
                self.warn(
                    "OTA: the board printed no address --- turn on the address log in the prepare step, or type it by hand",
                );
            }
        }
    }
}

/// The board is restarted at most once per capture.
pub proof fn a_capture_restarts_the_board_once(
    m: Model,
    first: Seq<Seq<char>>,
    second: Seq<Seq<char>>,
)
    requires
        m.capture is Some,
        tool_ready(first),
    ensures
        m.capture_read(first, None).capture.unwrap().reset_sent,
        m.capture_read(first, None).capture_read(second, None).effects == m.capture_read(
            first,
            None,
        ).effects,
{
}

/// A found address ends the session at once; only a miss is reported at its
/// end.
pub proof fn a_found_address_ends_the_session(
    m: Model,
    lines: Seq<Seq<char>>,
    address: Seq<char>,
)
    requires
        m.capture is Some,
    ensures
        ({
            let after = m.capture_read(lines, Some(address));
            &&& after.effects.contains(Effect::Task(Task::Cancel(m.capture.unwrap().process)))
            &&& after.capture_finished().logs == after.logs
        }),
{
    let capture = m.capture.unwrap();
    let after = m.capture_read(lines, Some(address));
    let reset = !capture.reset_sent && tool_ready(lines);
    let at = if reset {
        m.effects.len() + 1
    } else {
        m.effects.len()
    };
    assert(after.effects[at as int] == Effect::<Seq<char>, Seq<u8>>::Task(
        Task::Cancel(capture.process),
    ));
}

} // verus!
