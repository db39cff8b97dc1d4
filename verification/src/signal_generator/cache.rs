//! The latest message of each kind that a signal generator has sent, and what
//! storing a new one sets in motion.
use vstd::prelude::*;

use super::config::{Config, ConfigExp};
use super::config_amp_sweep::{ConfigAmpSweep, ConfigAmpSweepExp};
use super::config_cw::{ConfigCw, ConfigCwExp};
use super::message::Message;
use super::model::Model;
use super::radio::{
    active_radio_model, inactive_radio_model, spec_active_radio_model, spec_inactive_radio_model,
};
use super::temperature::Temperature;
use crate::serial_number::SerialNumber;
use crate::setup_info::{RfExplorerMessageContainer, SetupInfo};

verus! {

/// A place in the cache: one for each kind of message, each with its own
/// waiters.
#[derive(Debug, Clone, Copy, PartialEq, Eq, Structural)]
pub enum Slot {
    /// Main-module configurations.
    Config,
    /// Main-module amplitude sweep configurations.
    ConfigAmpSweep,
    /// Main-module CW configurations.
    ConfigCw,
    /// Expansion-module configurations.
    ConfigExp,
    /// Expansion-module amplitude sweep configurations.
    ConfigAmpSweepExp,
    /// Expansion-module CW configurations.
    ConfigCwExp,
    /// Serial numbers.
    SerialNumber,
    /// Setup messages.
    SetupInfo,
    /// Temperatures.
    Temperature,
}

/// The slot that holds messages of the kind of `m`.
pub open spec fn slot_of(m: Message) -> Slot {
    match m {
        Message::Config(_) => Slot::Config,
        Message::ConfigAmpSweep(_) => Slot::ConfigAmpSweep,
        Message::ConfigCw(_) => Slot::ConfigCw,
        Message::ConfigExp(_) => Slot::ConfigExp,
        Message::ConfigAmpSweepExp(_) => Slot::ConfigAmpSweepExp,
        Message::ConfigCwExp(_) => Slot::ConfigCwExp,
        Message::SerialNumber(_) => Slot::SerialNumber,
        Message::SetupInfo(_) => Slot::SetupInfo,
        Message::Temperature(_) => Slot::Temperature,
    }
}

/// True for the slots of configurations, whose new messages are handed to a
/// callback when one is set.
pub open spec fn has_callback(s: Slot) -> bool {
    match s {
        Slot::SerialNumber | Slot::SetupInfo | Slot::Temperature => false,
        _ => true,
    }
}

/// What storing a message sets in motion.
#[derive(Debug, Clone, Copy, PartialEq, Eq, Structural)]
pub struct CacheEffect {
    /// The slot whose waiters to wake: the one where the message was stored.
    pub wakes: Slot,
    /// True when the callback of the message's kind, if one is set, gets the message.
    pub runs_callback: bool,
}

/// The latest message of each kind that a signal generator has sent.
#[derive(Debug, Clone, PartialEq, Eq, Default)]
pub struct MessageCache {
    /// The latest main-module configuration.
    pub config: Option<Config>,
    /// The latest main-module amplitude sweep configuration.
    pub config_amp_sweep: Option<ConfigAmpSweep>,
    /// The latest main-module CW configuration.
    pub config_cw: Option<ConfigCw>,
    /// The latest expansion-module configuration.
    pub config_exp: Option<ConfigExp>,
    /// The latest expansion-module amplitude sweep configuration.
    pub config_amp_sweep_exp: Option<ConfigAmpSweepExp>,
    /// The latest expansion-module CW configuration.
    pub config_cw_exp: Option<ConfigCwExp>,
    /// The serial number.
    pub serial_number: Option<SerialNumber>,
    /// The latest setup message.
    pub setup_info: Option<SetupInfo<Model>>,
    /// The latest temperature range.
    pub temperature: Option<Temperature>,
}

/// The cache `c` with `m` stored in its slot.
pub open spec fn with_message(c: MessageCache, m: Message) -> MessageCache {
    match m {
        Message::Config(x) => MessageCache { config: Some(x), ..c },
        Message::ConfigAmpSweep(x) => MessageCache { config_amp_sweep: Some(x), ..c },
        Message::ConfigCw(x) => MessageCache { config_cw: Some(x), ..c },
        Message::ConfigExp(x) => MessageCache { config_exp: Some(x), ..c },
        Message::ConfigAmpSweepExp(x) => MessageCache { config_amp_sweep_exp: Some(x), ..c },
        Message::ConfigCwExp(x) => MessageCache { config_cw_exp: Some(x), ..c },
        Message::SerialNumber(x) => MessageCache { serial_number: Some(x), ..c },
        Message::SetupInfo(x) => MessageCache { setup_info: Some(x), ..c },
        Message::Temperature(x) => MessageCache { temperature: Some(x), ..c },
    }
}

/// The message that slot `s` of `c` holds, if any.
pub open spec fn slot_message(c: MessageCache, s: Slot) -> Option<Message> {
    match s {
        Slot::Config => match c.config {
            Some(x) => Some(Message::Config(x)),
            None => None,
        },
        Slot::ConfigAmpSweep => match c.config_amp_sweep {
            Some(x) => Some(Message::ConfigAmpSweep(x)),
            None => None,
        },
        Slot::ConfigCw => match c.config_cw {
            Some(x) => Some(Message::ConfigCw(x)),
            None => None,
        },
        Slot::ConfigExp => match c.config_exp {
            Some(x) => Some(Message::ConfigExp(x)),
            None => None,
        },
        Slot::ConfigAmpSweepExp => match c.config_amp_sweep_exp {
            Some(x) => Some(Message::ConfigAmpSweepExp(x)),
            None => None,
        },
        Slot::ConfigCwExp => match c.config_cw_exp {
            Some(x) => Some(Message::ConfigCwExp(x)),
            None => None,
        },
        Slot::SerialNumber => match c.serial_number {
            Some(x) => Some(Message::SerialNumber(x)),
            None => None,
        },
        Slot::SetupInfo => match c.setup_info {
            Some(x) => Some(Message::SetupInfo(x)),
            None => None,
        },
        Slot::Temperature => match c.temperature {
            Some(x) => Some(Message::Temperature(x)),
            None => None,
        },
    }
}

/// True when `c` holds what a connection waits for: a configuration and a
/// setup message.
pub open spec fn spec_has_device_info(c: MessageCache) -> bool {
    c.config is Some && c.setup_info is Some
}

impl MessageCache {
    /// A cache that holds no message.
    pub fn new() -> (c: MessageCache)
        ensures
            forall|s: Slot| slot_message(c, s) is None,
    {
        MessageCache {
            config: None,
            config_amp_sweep: None,
            config_cw: None,
            config_exp: None,
            config_amp_sweep_exp: None,
            config_cw_exp: None,
            serial_number: None,
            setup_info: None,
            temperature: None,
        }
    }

    /// Stores `message` in its slot, in place of the message there, and says
    /// whose waiters to wake and whether the kind's callback gets it.
    pub fn cache_message(&mut self, message: Message) -> (effect: CacheEffect)
        ensures
            *final(self) == with_message(*old(self), message),
            effect.wakes == slot_of(message),
            effect.runs_callback == has_callback(slot_of(message)),
    {
        match message {
            Message::Config(x) => {
                self.config = Some(x);
                CacheEffect { wakes: Slot::Config, runs_callback: true }
            },
            Message::ConfigAmpSweep(x) => {
                self.config_amp_sweep = Some(x);
                CacheEffect { wakes: Slot::ConfigAmpSweep, runs_callback: true }
            },
            Message::ConfigCw(x) => {
                self.config_cw = Some(x);
                CacheEffect { wakes: Slot::ConfigCw, runs_callback: true }
            },
            Message::ConfigExp(x) => {
                self.config_exp = Some(x);
                CacheEffect { wakes: Slot::ConfigExp, runs_callback: true }
            },
            Message::ConfigAmpSweepExp(x) => {
                self.config_amp_sweep_exp = Some(x);
                CacheEffect { wakes: Slot::ConfigAmpSweepExp, runs_callback: true }
            },
            Message::ConfigCwExp(x) => {
                self.config_cw_exp = Some(x);
                CacheEffect { wakes: Slot::ConfigCwExp, runs_callback: true }
            },
            Message::SerialNumber(x) => {
                self.serial_number = Some(x);
                CacheEffect { wakes: Slot::SerialNumber, runs_callback: false }
            },
            Message::SetupInfo(x) => {
                self.setup_info = Some(x);
                CacheEffect { wakes: Slot::SetupInfo, runs_callback: false }
            },
            Message::Temperature(x) => {
                self.temperature = Some(x);
                CacheEffect { wakes: Slot::Temperature, runs_callback: false }
            },
        }
    }

    /// True when the cache holds a configuration and a setup message, which is
    /// what a new connection waits for.
    pub fn has_device_info(&self) -> (r: bool)
        ensures
            r == spec_has_device_info(*self),
    {
        self.config.is_some() && self.setup_info.is_some()
    }

    /// The firmware version from the latest setup message, or an empty string
    /// when none has come.
    pub fn firmware_version(&self) -> (s: String)
        ensures
            s@ == (match self.setup_info {
                Some(info) => info.firmware_version@,
                None => Seq::<char>::empty(),
            }),
    {
        match &self.setup_info {
            Some(info) => info.firmware_version.clone(),
            None => String::new(),
        }
    }

    /// The active radio's model: the expansion module's once an expansion
    /// configuration has come, else the main module's. A setup message must
    /// have come.
    pub fn active_radio_model(&self) -> (m: Model)
        requires
            self.setup_info is Some,
        ensures
            m == spec_active_radio_model(
                self.setup_info.unwrap().main_radio_model,
                self.setup_info.unwrap().expansion_radio_model,
                self.config_exp is Some,
            ),
    {
        match &self.setup_info {
            Some(info) => active_radio_model(
                info.main_radio_model,
                info.expansion_radio_model,
                self.config_exp.is_some(),
            ),
            None => Model::Rfe6Gen,
        }
    }

    /// The inactive radio's model: none without an expansion module; the main
    /// module's once an expansion configuration has come, else the expansion
    /// module's. A setup message must have come.
    pub fn inactive_radio_model(&self) -> (m: Option<Model>)
        requires
            self.setup_info is Some,
        ensures
            m == spec_inactive_radio_model(
                self.setup_info.unwrap().main_radio_model,
                self.setup_info.unwrap().expansion_radio_model,
                self.config_exp is Some,
            ),
    {
        match &self.setup_info {
            Some(info) => inactive_radio_model(
                info.main_radio_model,
                info.expansion_radio_model,
                self.config_exp.is_some(),
            ),
            None => None,
        }
    }
}

/// What is read from a slot after a message is stored is that message, and
/// storing it leaves every other slot as it was.
pub proof fn lemma_cache_read_back(c: MessageCache, m: Message)
    ensures
        slot_message(with_message(c, m), slot_of(m)) == Some(m),
        forall|s: Slot| s != slot_of(m) ==> slot_message(with_message(c, m), s) == slot_message(c, s),
{
}

/// Storing a message never empties a slot.
pub proof fn lemma_slots_stay_filled(c: MessageCache, m: Message, s: Slot)
    requires
        slot_message(c, s) is Some,
    ensures
        slot_message(with_message(c, m), s) is Some,
{
}

/// Once the cache holds the device information, storing any message keeps it.
pub proof fn lemma_device_info_stays(c: MessageCache, m: Message)
    requires
        spec_has_device_info(c),
    ensures
        spec_has_device_info(with_message(c, m)),
{
}

impl RfExplorerMessageContainer for MessageCache {
    type Model = Model;

    open spec fn spec_setup_info(&self) -> Option<SetupInfo<Model>> {
        self.setup_info
    }

    fn setup_info(&self) -> (r: Option<&SetupInfo<Model>>) {
        match &self.setup_info {
            Some(info) => Some(info),
            None => None,
        }
    }
}

} // verus!
