//! The actuators of the enclosure: the feeder and the door as a client sees
//! them, and the drivers behind the receiver as plans of what to run.

use crate::settings::{
    number_setting, option_view, parse_bool_setting, parse_u64_setting, parse_u8_setting,
    switch_setting,
};
use crate::text::{decimal, decimal_string, replace_all, replaced, same_text};
use vstd::prelude::*;
use vstd::string::StringExecFns;

verus! {

/// What drives the actuators of a receiver.
pub trait ActuatorDriver: Send {
    fn feeder_activate(&mut self, device_key: &str, duration_ms: u64) -> Result<(), String>;

    fn door_open(&mut self, device_key: &str) -> Result<(), String>;

    fn door_close(&mut self, device_key: &str) -> Result<(), String>;
}

/// The kinds of driver.
#[derive(Clone, Copy, Debug, PartialEq, Eq)]
pub enum Backend {
    /// Shell commands.
    Command,
    /// The GPIO pins of a Raspberry Pi.
    RpiGpio,
}

/// The complaint about a backend that does not exist.
pub open spec fn unsupported_backend(name: Seq<char>) -> Seq<char> {
    "unsupported ACTUATOR_BACKEND `"@ + name + "` (expected `command` or `rpi-gpio`)"@
}

/// The backend that a setting names: `command`, also where nothing is set,
/// or `rpi-gpio`.
pub fn select_backend(name: Option<&str>) -> (r: Result<Backend, String>)
    ensures
        match name {
            None => r == Ok::<Backend, String>(Backend::Command),
            Some(text) => if text@ == "command"@ {
                r == Ok::<Backend, String>(Backend::Command)
            } else if text@ == "rpi-gpio"@ {
                r == Ok::<Backend, String>(Backend::RpiGpio)
            } else {
                r matches Err(message) && message@ == unsupported_backend(text@)
            },
        },
{
    match name {
        None => Ok(Backend::Command),
        Some(text) => {
            if same_text(text, "command") {
                Ok(Backend::Command)
            } else if same_text(text, "rpi-gpio") {
                Ok(Backend::RpiGpio)
            } else {
                let mut message = "unsupported ACTUATOR_BACKEND `".to_owned();
                message.append(text);
                message.append("` (expected `command` or `rpi-gpio`)");
                Err(message)
            }
        },
    }
}

/// A command template with the device key and the duration filled in:
/// first every `{device_key}` becomes the key, then every `{duration_ms}`
/// becomes the duration in decimal, 0 where there is none.
pub open spec fn rendered(template: Seq<char>, device_key: Seq<char>, duration_ms: Option<u64>) -> Seq<
    char,
> {
    let ms: nat = match duration_ms {
        Some(ms) => ms as nat,
        None => 0,
    };
    replaced(replaced(template, "{device_key}"@, device_key), "{duration_ms}"@, decimal(ms))
}

/// Fills the device key and the duration into a command template.
pub fn render_command(template: &str, device_key: &str, duration_ms: Option<u64>) -> (r: String)
    ensures
        r@ == rendered(template@, device_key@, duration_ms),
{
    proof {
        reveal_strlit("{device_key}");
        reveal_strlit("{duration_ms}");
    }
    let ms: u64 = match duration_ms {
        Some(ms) => ms,
        None => 0,
    };
    let with_key = replace_all(template, "{device_key}", device_key);
    let duration = decimal_string(ms as u128);
    replace_all(with_key.as_str(), "{duration_ms}", duration.as_str())
}

/// The command that a template gives for a device, where there is a
/// template.
pub open spec fn planned(template: Option<String>, device_key: Seq<char>, duration_ms: Option<u64>) -> Option<
    Seq<char>,
> {
    match template {
        Some(text) => Some(rendered(text@, device_key, duration_ms)),
        None => None,
    }
}

/// Whether `command` is the command `expected`.
pub open spec fn is_command(command: Option<String>, expected: Option<Seq<char>>) -> bool {
    match (command, expected) {
        (Some(a), Some(b)) => a@ == b,
        (None, None) => true,
        _ => false,
    }
}

fn plan(template: &Option<String>, device_key: &str, duration_ms: Option<u64>) -> (command: Option<
    String,
>)
    ensures
        is_command(command, planned(*template, device_key@, duration_ms)),
{
    match template {
        Some(text) => Some(render_command(text.as_str(), device_key, duration_ms)),
        None => None,
    }
}

/// A driver that runs a shell command for each action, where one is
/// configured, and remembers whether the door is open.
pub struct LocalActuatorDriver {
    pub door_is_open: bool,
    pub feeder_activate_cmd: Option<String>,
    pub door_open_cmd: Option<String>,
    pub door_close_cmd: Option<String>,
}

impl LocalActuatorDriver {
    /// A driver with the given command templates and the door closed.
    pub fn new(
        feeder_activate_cmd: Option<String>,
        door_open_cmd: Option<String>,
        door_close_cmd: Option<String>,
    ) -> (driver: LocalActuatorDriver)
        ensures
            !driver.door_is_open,
            driver.feeder_activate_cmd == feeder_activate_cmd,
            driver.door_open_cmd == door_open_cmd,
            driver.door_close_cmd == door_close_cmd,
    {
        LocalActuatorDriver { door_is_open: false, feeder_activate_cmd, door_open_cmd, door_close_cmd }
    }

    /// The command to run to activate the feeder of `device_key` for
    /// `duration_ms` milliseconds, where one is configured.
    pub fn plan_feeder_activate(&self, device_key: &str, duration_ms: u64) -> (command: Option<
        String,
    >)
        ensures
            is_command(command, planned(self.feeder_activate_cmd, device_key@, Some(duration_ms))),
    {
        plan(&self.feeder_activate_cmd, device_key, Some(duration_ms))
    }

    /// Marks the door open, and gives the command to run to open the door
    /// of `device_key`, where one is configured.
    pub fn plan_door_open(&mut self, device_key: &str) -> (command: Option<String>)
        ensures
            final(self).door_is_open,
            final(self).feeder_activate_cmd == old(self).feeder_activate_cmd,
            final(self).door_open_cmd == old(self).door_open_cmd,
            final(self).door_close_cmd == old(self).door_close_cmd,
            is_command(command, planned(old(self).door_open_cmd, device_key@, None)),
    {
        self.door_is_open = true;
        plan(&self.door_open_cmd, device_key, None)
    }

    /// Marks the door closed, and gives the command to run to close the
    /// door of `device_key`, where one is configured.
    pub fn plan_door_close(&mut self, device_key: &str) -> (command: Option<String>)
        ensures
            !final(self).door_is_open,
            final(self).feeder_activate_cmd == old(self).feeder_activate_cmd,
            final(self).door_open_cmd == old(self).door_open_cmd,
            final(self).door_close_cmd == old(self).door_close_cmd,
            is_command(command, planned(old(self).door_close_cmd, device_key@, None)),
    {
        self.door_is_open = false;
        plan(&self.door_close_cmd, device_key, None)
    }
}

/// The level of a GPIO pin.
#[derive(Clone, Copy, Debug, PartialEq, Eq)]
pub enum PinLevel {
    High,
    Low,
}

/// One step of driving GPIO pins.
#[derive(Clone, Copy, Debug, PartialEq, Eq)]
pub enum GpioStep {
    /// Set the pin to the level.
    Write { pin: u8, level: PinLevel },
    /// Wait for so many milliseconds.
    Hold { ms: u64 },
}

/// How a GPIO driver is wired: the pin of each relay, whether a relay is on
/// at the high level, and how long the door motors are pulsed.
#[derive(Clone, Copy, Debug, PartialEq, Eq)]
pub struct RpiGpioConfig {
    pub feeder_pin: u8,
    pub door_open_pin: u8,
    pub door_close_pin: u8,
    pub active_high: bool,
    pub door_pulse_ms: u64,
}

impl RpiGpioConfig {
    /// The level at which a relay is on.
    pub open spec fn active(&self) -> PinLevel {
        if self.active_high {
            PinLevel::High
        } else {
            PinLevel::Low
        }
    }

    /// The level at which a relay is off.
    pub open spec fn inactive(&self) -> PinLevel {
        if self.active_high {
            PinLevel::Low
        } else {
            PinLevel::High
        }
    }

    /// Switching `pin` on for `ms` milliseconds.
    pub open spec fn pulse(&self, pin: u8, ms: u64) -> Seq<GpioStep> {
        seq![
            GpioStep::Write { pin, level: self.active() },
            GpioStep::Hold { ms },
            GpioStep::Write { pin, level: self.inactive() },
        ]
    }

    #[verifier::when_used_as_spec(active)]
    pub fn active_level(&self) -> (level: PinLevel)
        ensures
            level == self.active(),
    {
        if self.active_high {
            PinLevel::High
        } else {
            PinLevel::Low
        }
    }

    #[verifier::when_used_as_spec(inactive)]
    pub fn inactive_level(&self) -> (level: PinLevel)
        ensures
            level == self.inactive(),
    {
        if self.active_high {
            PinLevel::Low
        } else {
            PinLevel::High
        }
    }

    /// The steps on taking the pins: each relay is switched off, the feeder
    /// first, then the door opener, then the door closer.
    pub fn setup_steps(&self) -> (steps: Vec<GpioStep>)
        ensures
            steps@ == seq![
                GpioStep::Write { pin: self.feeder_pin, level: self.inactive() },
                GpioStep::Write { pin: self.door_open_pin, level: self.inactive() },
                GpioStep::Write { pin: self.door_close_pin, level: self.inactive() },
            ],
    {
        let off = self.inactive_level();
        let mut steps: Vec<GpioStep> = Vec::new();
        steps.push(GpioStep::Write { pin: self.feeder_pin, level: off });
        steps.push(GpioStep::Write { pin: self.door_open_pin, level: off });
        steps.push(GpioStep::Write { pin: self.door_close_pin, level: off });
        assert(steps@ =~= seq![
            GpioStep::Write { pin: self.feeder_pin, level: self.inactive() },
            GpioStep::Write { pin: self.door_open_pin, level: self.inactive() },
            GpioStep::Write { pin: self.door_close_pin, level: self.inactive() },
        ]);
        steps
    }

    fn push_pulse(&self, steps: &mut Vec<GpioStep>, pin: u8, ms: u64)
        ensures
            final(steps)@ == old(steps)@ + self.pulse(pin, ms),
    {
        steps.push(GpioStep::Write { pin, level: self.active_level() });
        steps.push(GpioStep::Hold { ms });
        steps.push(GpioStep::Write { pin, level: self.inactive_level() });
        assert(final(steps)@ =~= old(steps)@ + self.pulse(pin, ms));
    }

    /// The steps that run the feeder for `duration_ms` milliseconds.
    pub fn feeder_steps(&self, duration_ms: u64) -> (steps: Vec<GpioStep>)
        ensures
            steps@ == self.pulse(self.feeder_pin, duration_ms),
    {
        let mut steps: Vec<GpioStep> = Vec::new();
        self.push_pulse(&mut steps, self.feeder_pin, duration_ms);
        assert(Seq::<GpioStep>::empty() + self.pulse(self.feeder_pin, duration_ms) =~= self.pulse(
            self.feeder_pin,
            duration_ms,
        ));
        steps
    }

    /// The steps that open the door: the closer is switched off, then the
    /// opener is pulsed.
    pub fn door_open_steps(&self) -> (steps: Vec<GpioStep>)
        ensures
            steps@ == seq![GpioStep::Write { pin: self.door_close_pin, level: self.inactive() }]
                + self.pulse(self.door_open_pin, self.door_pulse_ms),
    {
        let mut steps: Vec<GpioStep> = Vec::new();
        steps.push(GpioStep::Write { pin: self.door_close_pin, level: self.inactive_level() });
        assert(steps@ =~= seq![
            GpioStep::Write { pin: self.door_close_pin, level: self.inactive() },
        ]);
        self.push_pulse(&mut steps, self.door_open_pin, self.door_pulse_ms);
        steps
    }

    /// The steps that close the door: the opener is switched off, then the
    /// closer is pulsed.
    pub fn door_close_steps(&self) -> (steps: Vec<GpioStep>)
        ensures
            steps@ == seq![GpioStep::Write { pin: self.door_open_pin, level: self.inactive() }]
                + self.pulse(self.door_close_pin, self.door_pulse_ms),
    {
        let mut steps: Vec<GpioStep> = Vec::new();
        steps.push(GpioStep::Write { pin: self.door_open_pin, level: self.inactive_level() });
        assert(steps@ =~= seq![
            GpioStep::Write { pin: self.door_open_pin, level: self.inactive() },
        ]);
        self.push_pulse(&mut steps, self.door_close_pin, self.door_pulse_ms);
        steps
    }
}

/// The settings of a GPIO driver, each as its text where it is set.
pub struct RpiGpioSettings<'a> {
    pub feeder_pin: Option<&'a str>,
    pub door_open_pin: Option<&'a str>,
    pub door_close_pin: Option<&'a str>,
    pub active_high: Option<&'a str>,
    pub door_pulse_ms: Option<&'a str>,
}

/// The wiring that settings give. What is not set takes its default: pins
/// 17, 27 and 22 for feeder, door opener and door closer, relays on at the
/// high level, door pulses of 1200 milliseconds. The first setting that
/// cannot be read, in that order, is complained of.
pub open spec fn wiring(settings: &RpiGpioSettings) -> Result<RpiGpioConfig, Seq<char>> {
    match number_setting("FEEDER_GPIO_PIN"@, option_view(settings.feeder_pin), 17, 255) {
        Err(message) => Err(message),
        Ok(feeder) => match number_setting(
            "DOOR_OPEN_GPIO_PIN"@,
            option_view(settings.door_open_pin),
            27,
            255,
        ) {
            Err(message) => Err(message),
            Ok(opener) => match number_setting(
                "DOOR_CLOSE_GPIO_PIN"@,
                option_view(settings.door_close_pin),
                22,
                255,
            ) {
                Err(message) => Err(message),
                Ok(closer) => match switch_setting(
                    "ACTUATOR_ACTIVE_HIGH"@,
                    option_view(settings.active_high),
                    true,
                ) {
                    Err(message) => Err(message),
                    Ok(active_high) => match number_setting(
                        "DOOR_PULSE_MS"@,
                        option_view(settings.door_pulse_ms),
                        1200,
                        u64::MAX as nat,
                    ) {
                        Err(message) => Err(message),
                        Ok(pulse) => Ok(
                            RpiGpioConfig {
                                feeder_pin: feeder as u8,
                                door_open_pin: opener as u8,
                                door_close_pin: closer as u8,
                                active_high,
                                door_pulse_ms: pulse as u64,
                            },
                        ),
                    },
                },
            },
        },
    }
}

/// Reads the wiring of a GPIO driver from its settings.
pub fn rpi_config_from_settings(settings: &RpiGpioSettings) -> (r: Result<RpiGpioConfig, String>)
    ensures
        match (r, wiring(settings)) {
            (Ok(config), Ok(expected)) => config == expected,
            (Err(message), Err(expected)) => message@ == expected,
            _ => false,
        },
{
    let feeder_pin = match parse_u8_setting("FEEDER_GPIO_PIN", settings.feeder_pin, 17) {
        Ok(pin) => pin,
        Err(message) => { return Err(message); },
    };
    let door_open_pin = match parse_u8_setting("DOOR_OPEN_GPIO_PIN", settings.door_open_pin, 27) {
        Ok(pin) => pin,
        Err(message) => { return Err(message); },
    };
    let door_close_pin = match parse_u8_setting("DOOR_CLOSE_GPIO_PIN", settings.door_close_pin, 22) {
        Ok(pin) => pin,
        Err(message) => { return Err(message); },
    };
    let active_high = match parse_bool_setting("ACTUATOR_ACTIVE_HIGH", settings.active_high, true) {
        Ok(high) => high,
        Err(message) => { return Err(message); },
    };
    let door_pulse_ms = match parse_u64_setting("DOOR_PULSE_MS", settings.door_pulse_ms, 1200) {
        Ok(ms) => ms,
        Err(message) => { return Err(message); },
    };
    Ok(RpiGpioConfig { feeder_pin, door_open_pin, door_close_pin, active_high, door_pulse_ms })
}

/// The feeder, as a client of the receiver addresses it.
pub struct FeederMotor {
    pub key: String,
    pub api_key: String,
}

impl FeederMotor {
    pub fn new(key: &str, api_key: &str) -> (motor: FeederMotor)
        ensures
            motor.key@ == key@,
            motor.api_key@ == api_key@,
    {
        FeederMotor { key: key.to_owned(), api_key: api_key.to_owned() }
    }

    /// The path under the receiver's address that activates the feeder.
    pub fn activate_path(&self) -> (path: &'static str)
        ensures
            path@ == "actuators/feeder/activate"@,
    {
        "actuators/feeder/activate"
    }
}

/// The door, as a client of the receiver addresses it.
pub struct CoopDoor {
    pub key: String,
    pub api_key: String,
}

impl CoopDoor {
    pub fn new(key: &str, api_key: &str) -> (door: CoopDoor)
        ensures
            door.key@ == key@,
            door.api_key@ == api_key@,
    {
        CoopDoor { key: key.to_owned(), api_key: api_key.to_owned() }
    }

    /// The path under the receiver's address that opens the door.
    pub fn open_path(&self) -> (path: &'static str)
        ensures
            path@ == "actuators/door/open"@,
    {
        "actuators/door/open"
    }

    /// The path under the receiver's address that closes the door.
    pub fn close_path(&self) -> (path: &'static str)
        ensures
            path@ == "actuators/door/close"@,
    {
        "actuators/door/close"
    }
}

} // verus!
