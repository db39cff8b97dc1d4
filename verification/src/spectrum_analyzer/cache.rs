//! The latest settings and identity messages that a spectrum analyzer has
//! sent: its DSP mode, input stage, serial number, setup and tracking status.
//! Its configurations, sweeps and screen images are not read by this library.
use vstd::prelude::*;

use super::dsp_mode::DspMode;
use super::input_stage::InputStage;
use super::message::Message;
use super::model::Model;
use super::tracking_status::TrackingStatus;
use crate::serial_number::SerialNumber;
use crate::setup_info::{RfExplorerMessageContainer, SetupInfo};

verus! {

/// The latest settings and identity messages of a spectrum analyzer.
#[derive(Debug, Clone, PartialEq, Eq, Default)]
pub struct MessageCache {
    /// The latest DSP mode.
    pub dsp_mode: Option<DspMode>,
    /// The latest input stage.
    pub input_stage: Option<InputStage>,
    /// The serial number.
    pub serial_number: Option<SerialNumber>,
    /// The latest setup message.
    pub setup_info: Option<SetupInfo<Model>>,
    /// The latest tracking status.
    pub tracking_status: Option<TrackingStatus>,
}

/// The cache `c` with `m` stored in its place.
pub open spec fn with_message(c: MessageCache, m: Message) -> MessageCache {
    match m {
        Message::DspMode(x) => MessageCache { dsp_mode: Some(x), ..c },
        Message::InputStage(x) => MessageCache { input_stage: Some(x), ..c },
        Message::SerialNumber(x) => MessageCache { serial_number: Some(x), ..c },
        Message::SetupInfo(x) => MessageCache { setup_info: Some(x), ..c },
        Message::TrackingStatus(x) => MessageCache { tracking_status: Some(x), ..c },
    }
}

impl MessageCache {
    /// A cache that holds no message.
    pub fn new() -> (c: MessageCache)
        ensures
            c.dsp_mode is None,
            c.input_stage is None,
            c.serial_number is None,
            c.setup_info is None,
            c.tracking_status is None,
    {
        MessageCache {
            dsp_mode: None,
            input_stage: None,
            serial_number: None,
            setup_info: None,
            tracking_status: None,
        }
    }

    /// Stores `message` in its place, in place of the message there.
    pub fn cache_message(&mut self, message: Message)
        ensures
            *final(self) == with_message(*old(self), message),
    {
        match message {
            Message::DspMode(x) => self.dsp_mode = Some(x),
            Message::InputStage(x) => self.input_stage = Some(x),
            Message::SerialNumber(x) => self.serial_number = Some(x),
            Message::SetupInfo(x) => self.setup_info = Some(x),
            Message::TrackingStatus(x) => self.tracking_status = Some(x),
        }
    }

    /// Forgets the tracking status, so that the next one to come can be told
    /// from the last, as a request for tracking does before it is sent.
    pub fn clear_tracking_status(&mut self)
        ensures
            *final(self) == (MessageCache { tracking_status: None, ..*old(self) }),
    {
        self.tracking_status = None;
    }

    /// True when the DSP mode that the device last reported is `dsp_mode`, in
    /// which case setting it again needs no command.
    pub fn has_dsp_mode(&self, dsp_mode: DspMode) -> (r: bool)
        ensures
            r == (self.dsp_mode == Some(dsp_mode)),
    {
        match self.dsp_mode {
            Some(current) => current == dsp_mode,
            None => false,
        }
    }

    /// The firmware version from the latest setup message, or an empty string
    /// when none has come.
    pub fn firmware_version(&self) -> (s: String)
        ensures
            s@ == (match self.setup_info {
                Some(info) => info.firmware_version@,
                None => Seq::<char>::empty(),
            }),
    {
        match &self.setup_info {
            Some(info) => info.firmware_version.clone(),
            None => String::new(),
        }
    }
}

impl RfExplorerMessageContainer for MessageCache {
    type Model = Model;

    open spec fn spec_setup_info(&self) -> Option<SetupInfo<Model>> {
        self.setup_info
    }

    fn setup_info(&self) -> (r: Option<&SetupInfo<Model>>) {
        match &self.setup_info {
            Some(info) => Some(info),
            None => None,
        }
    }
}

} // verus!
