//! The sensors of the enclosure: each is read from a gateway under its own
//! path, with its own key.

use vstd::prelude::*;

verus! {

pub struct TemperatureSensor {
    pub key: String,
}

pub struct HumiditySensor {
    pub key: String,
}

pub struct MotionSensor {
    pub key: String,
}

pub struct EggPresenceSensor {
    pub key: String,
}

impl TemperatureSensor {
    pub fn new(key: &str) -> (sensor: TemperatureSensor)
        ensures
            sensor.key@ == key@,
    {
        TemperatureSensor { key: key.to_owned() }
    }

    /// The path of the temperature reading under the gateway's address.
    pub fn path(&self) -> (path: &'static str)
        ensures
            path@ == "sensors/temperature"@,
    {
        "sensors/temperature"
    }
}

impl HumiditySensor {
    pub fn new(key: &str) -> (sensor: HumiditySensor)
        ensures
            sensor.key@ == key@,
    {
        HumiditySensor { key: key.to_owned() }
    }

    /// The path of the humidity reading under the gateway's address.
    pub fn path(&self) -> (path: &'static str)
        ensures
            path@ == "sensors/humidity"@,
    {
        "sensors/humidity"
    }
}

impl MotionSensor {
    pub fn new(key: &str) -> (sensor: MotionSensor)
        ensures
            sensor.key@ == key@,
    {
        MotionSensor { key: key.to_owned() }
    }

    /// The path of the motion reading under the gateway's address.
    pub fn path(&self) -> (path: &'static str)
        ensures
            path@ == "sensors/motion"@,
    {
        "sensors/motion"
    }

    /// The reading where the gateway gave none: no motion.
    pub fn reading(&self, fetched: Option<bool>) -> (r: bool)
        ensures
            r == (fetched == Some(true)),
    {
        match fetched {
            Some(value) => value,
            None => false,
        }
    }
}

impl EggPresenceSensor {
    pub fn new(key: &str) -> (sensor: EggPresenceSensor)
        ensures
            sensor.key@ == key@,
    {
        EggPresenceSensor { key: key.to_owned() }
    }

    /// The path of the egg reading under the gateway's address.
    pub fn path(&self) -> (path: &'static str)
        ensures
            path@ == "sensors/eggs"@,
    {
        "sensors/eggs"
    }

    /// The reading where the gateway gave none: no eggs.
    pub fn reading(&self, fetched: Option<bool>) -> (r: bool)
        ensures
            r == (fetched == Some(true)),
    {
        match fetched {
            Some(value) => value,
            None => false,
        }
    }
}

} // verus!
