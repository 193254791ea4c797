//! Temperature sensors.

use crate::model::TemperatureInfo;
use crate::numbers::Fixed;
use vstd::prelude::*;
use vstd::string::*;

verus! {

/// What one poll reads of one sensor, in degrees Celsius. A maximum of zero
/// or less means that the sensor has none.
#[derive(Debug, Clone, PartialEq, Eq)]
pub struct SensorReading {
    pub label: String,
    pub temperature: Fixed,
    pub critical: Option<Fixed>,
    pub max: Fixed,
}

impl SensorReading {
    /// Whether the reading is a temperature at all: it is above zero.
    pub open spec fn is_valid(self) -> bool {
        self.temperature.thousandths > 0
    }
}

/// The sensor of a snapshot that the reading gives.
pub open spec fn temperature_info(reading: SensorReading) -> TemperatureInfo {
    TemperatureInfo {
        label: reading.label,
        temperature: reading.temperature,
        critical: reading.critical,
        max: if reading.max.thousandths > 0 {
            Some(reading.max)
        } else {
            None
        },
    }
}

/// The sensors of a snapshot: one per valid reading, in order.
pub open spec fn temperature_infos(readings: Seq<SensorReading>) -> Seq<TemperatureInfo>
    decreases readings.len(),
{
    if readings.len() == 0 {
        Seq::empty()
    } else if readings.last().is_valid() {
        temperature_infos(readings.drop_last()).push(temperature_info(readings.last()))
    } else {
        temperature_infos(readings.drop_last())
    }
}

/// Sum of the temperatures, in thousandths of a degree.
pub open spec fn temperature_sum(sensors: Seq<TemperatureInfo>) -> int
    decreases sensors.len(),
{
    if sensors.len() == 0 {
        0
    } else {
        temperature_sum(sensors.drop_last()) + sensors.last().temperature.thousandths
    }
}

/// The mean temperature, rounded towards zero to a thousandth of a degree.
pub open spec fn mean_temperature(sensors: Seq<TemperatureInfo>) -> Option<Fixed> {
    if sensors.len() == 0 {
        None
    } else {
        let sum = temperature_sum(sensors);
        let mean = if sum >= 0 {
            sum / (sensors.len() as int)
        } else {
            -((-sum) / (sensors.len() as int))
        };
        Some(Fixed { thousandths: mean as i64 })
    }
}

/// The highest temperature.
pub open spec fn highest_temperature(sensors: Seq<TemperatureInfo>) -> Option<Fixed> {
    match crate::widgets::temperature::hottest(sensors) {
        Some(i) => Some(sensors[i].temperature),
        None => None,
    }
}

/// How hot a sensor is, against its critical temperature.
#[derive(Debug, Clone, Copy, PartialEq, Eq, Structural)]
pub enum TemperatureStatus {
    /// Below 60% of the critical temperature.
    Cool,
    /// From 60% of the critical temperature.
    Warm,
    /// From 80% of the critical temperature.
    Warning,
    /// At or above the critical temperature.
    Critical,
}

/// The critical temperature assumed for a sensor that names none.
pub const DEFAULT_CRITICAL: i64 = 80_000;

/// The maximum assumed for a sensor that names neither maximum nor
/// critical temperature.
pub const DEFAULT_MAX: i64 = 100_000;

impl TemperatureInfo {
    /// The critical temperature of the sensor, or eighty degrees.
    pub open spec fn critical_threshold(self) -> int {
        match self.critical {
            Some(c) => c.thousandths as int,
            None => DEFAULT_CRITICAL as int,
        }
    }

    /// The status of the sensor.
    pub open spec fn status(self) -> TemperatureStatus {
        let t = self.temperature.thousandths as int;
        let c = self.critical_threshold();
        if t >= c {
            TemperatureStatus::Critical
        } else if t * 10 >= c * 8 {
            TemperatureStatus::Warning
        } else if t * 10 >= c * 6 {
            TemperatureStatus::Warm
        } else {
            TemperatureStatus::Cool
        }
    }

    /// The temperature against which the sensor is measured: its maximum,
    /// else its critical temperature, else a hundred degrees.
    pub open spec fn ceiling(self) -> int {
        match self.max {
            Some(m) => m.thousandths as int,
            None => match self.critical {
                Some(c) => c.thousandths as int,
                None => DEFAULT_MAX as int,
            },
        }
    }

    /// The temperature as a percentage of the ceiling, between 0 and 100,
    /// rounded down to a thousandth of a percent. A ceiling of zero counts
    /// as reached by every temperature that is not negative.
    pub open spec fn percentage(self) -> Fixed {
        let t = self.temperature.thousandths as int;
        let m = self.ceiling();
        if m == 0 {
            Fixed {
                thousandths: if t >= 0 {
                    100_000
                } else {
                    0
                },
            }
        } else if t == 0 || (t < 0) != (m < 0) {
            Fixed { thousandths: 0 }
        } else {
            let ratio = (magnitude(t) * 100_000) / magnitude(m);
            Fixed {
                thousandths: if ratio > 100_000 {
                    100_000
                } else {
                    ratio as i64
                },
            }
        }
    }

    /// How hot the sensor is, against its critical temperature.
    pub fn get_status(&self) -> (r: TemperatureStatus)
        ensures
            r == self.status(),
    {
        let t: i128 = self.temperature.thousandths as i128;
        let c: i128 = match self.critical {
            Some(c) => c.thousandths as i128,
            None => DEFAULT_CRITICAL as i128,
        };
        if t >= c {
            TemperatureStatus::Critical
        } else if t * 10 >= c * 8 {
            TemperatureStatus::Warning
        } else if t * 10 >= c * 6 {
            TemperatureStatus::Warm
        } else {
            TemperatureStatus::Cool
        }
    }

    /// The temperature as a percentage of the ceiling of the sensor.
    pub fn get_percentage(&self) -> (r: Fixed)
        ensures
            r == self.percentage(),
    {
        let t = self.temperature;
        let m = match self.max {
            Some(m) => m,
            None => match self.critical {
                Some(c) => c,
                None => Fixed { thousandths: DEFAULT_MAX },
            },
        };
        if m.thousandths == 0 {
            if t.thousandths >= 0 {
                Fixed { thousandths: 100_000 }
            } else {
                Fixed { thousandths: 0 }
            }
        } else if t.thousandths == 0 || (t.thousandths < 0) != (m.thousandths < 0) {
            Fixed { thousandths: 0 }
        } else {
            let ratio: u128 = (t.magnitude() as u128 * 100_000) / m.magnitude() as u128;
            if ratio > 100_000 {
                Fixed { thousandths: 100_000 }
            } else {
                Fixed { thousandths: ratio as i64 }
            }
        }
    }
}

/// The size of a number without its sign.
pub open spec fn magnitude(n: int) -> int {
    if n < 0 {
        -n
    } else {
        n
    }
}

/// Turns sensor readings into the sensors of a snapshot, and keeps the last.
pub struct TemperatureCollector {
    pub last_sensors: Vec<TemperatureInfo>,
}

impl TemperatureCollector {
    /// A collector that has seen no poll.
    pub fn new() -> (r: Self)
        ensures
            r.last_sensors@ == Seq::<TemperatureInfo>::empty(),
    {
        TemperatureCollector { last_sensors: Vec::new() }
    }

    /// Takes the readings of a first poll.
    pub fn init(&mut self, readings: &Vec<SensorReading>)
        ensures
            final(self).last_sensors@ == temperature_infos(readings@),
    {
        self.last_sensors = sensors_of(readings);
    }

    /// The sensors of the snapshot of one poll: those whose reading is
    /// above zero.
    pub fn collect(&mut self, readings: &Vec<SensorReading>) -> (sensors: Vec<TemperatureInfo>)
        ensures
            sensors@ == temperature_infos(readings@),
            final(self).last_sensors@ == temperature_infos(readings@),
    {
        self.last_sensors = sensors_of(readings);
        sensors_of(readings)
    }

    /// The mean of the temperatures of the last poll.
    pub fn get_system_temperature(&self) -> (r: Option<Fixed>)
        ensures
            r == mean_temperature(self.last_sensors@),
    {
        let sensors = &self.last_sensors;
        if sensors.len() == 0 {
            return None;
        }
        let mut sum: i128 = 0;
        let mut i: usize = 0;
        while i < sensors.len()
            invariant
                i <= sensors.len(),
                sum == temperature_sum(sensors@.take(i as int)),
                -0x8000_0000_0000_0000 * i <= sum <= 0x7fff_ffff_ffff_ffff * i,
            decreases sensors.len() - i,
        {
            proof {
                assert(sensors@.take(i + 1).drop_last() =~= sensors@.take(i as int));
            }
            sum = sum + sensors[i].temperature.thousandths as i128;
            i += 1;
        }
        proof {
            assert(sensors@.take(sensors.len() as int) =~= sensors@);
        }
        let count: i128 = sensors.len() as i128;
        let mean: i128 = if sum >= 0 {
            sum / count
        } else {
            -((-sum) / count)
        };
        proof {
            let n = count as int;
            let s = sum as int;
            assert(-0x8000_0000_0000_0000 <= mean <= 0x7fff_ffff_ffff_ffff) by (nonlinear_arith)
                requires
                    n >= 1,
                    -0x8000_0000_0000_0000 * n <= s <= 0x7fff_ffff_ffff_ffff * n,
                    mean == if s >= 0 {
                        s / n
                    } else {
                        -((-s) / n)
                    },
            ;
        }
        Some(Fixed { thousandths: mean as i64 })
    }

    /// The highest temperature of the last poll.
    pub fn get_max_temperature(&self) -> (r: Option<Fixed>)
        ensures
            r == highest_temperature(self.last_sensors@),
    {
        match crate::widgets::temperature::hottest_of(&self.last_sensors) {
            Some(i) => Some(self.last_sensors[i].temperature),
            None => None,
        }
    }
}

fn sensors_of(readings: &Vec<SensorReading>) -> (sensors: Vec<TemperatureInfo>)
    ensures
        sensors@ == temperature_infos(readings@),
{
    let mut sensors: Vec<TemperatureInfo> = Vec::new();
    let mut i: usize = 0;
    while i < readings.len()
        invariant
            i <= readings.len(),
            sensors@ == temperature_infos(readings@.take(i as int)),
        decreases readings.len() - i,
    {
        proof {
            assert(readings@.take(i + 1).drop_last() =~= readings@.take(i as int));
        }
        let reading = &readings[i];
        if reading.temperature.thousandths > 0 {
            sensors.push(
                TemperatureInfo {
                    label: reading.label.clone(),
                    temperature: reading.temperature,
                    critical: reading.critical,
                    max: if reading.max.thousandths > 0 {
                        Some(reading.max)
                    } else {
                        None
                    },
                },
            );
        }
        i += 1;
    }
    proof {
        assert(readings@.take(readings.len() as int) =~= readings@);
    }
    sensors
}

} // verus!
