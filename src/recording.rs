use vstd::prelude::*;

verus! {

/// The sensor modality that a recording streams.
#[derive(Clone, Copy, Debug, PartialEq, Eq, Structural)]
pub enum Recording {
    Accelerometry,
    Pressure,
}

/// What is declared to the telemetry sink for one recording. Every channel
/// carries a signed 16-bit integer.
#[derive(Debug)]
pub struct StreamDescriptor {
    pub name: String,
    pub content_type: String,
    pub channel_count: u32,
    pub nominal_rate_hz: u32,
    pub source_id: String,
    pub labels: Vec<String>,
}

/// Nominal sample rate of every recording, in hertz.
pub const NOMINAL_RATE_HZ: u32 = 50;

pub open spec fn channel_count(r: Recording) -> u32 {
    match r {
        Recording::Accelerometry => 3,
        Recording::Pressure => 16,
    }
}

pub open spec fn content_type(r: Recording) -> Seq<char> {
    match r {
        Recording::Accelerometry => "Accelerometry"@,
        Recording::Pressure => "Pressure"@,
    }
}

pub open spec fn channel_labels(r: Recording) -> Seq<Seq<char>> {
    match r {
        Recording::Accelerometry => seq!["Pitch"@, "Roll"@, "Yaw"@],
        Recording::Pressure => seq![],
    }
}

impl Recording {
    /// The stream declaration for a recording of this kind from the device
    /// `name`.
    pub fn info(&self, name: &str) -> (r: StreamDescriptor)
        ensures
            r.name@ == name@,
            r.source_id@ == name@,
            r.content_type@ == content_type(*self),
            r.channel_count == channel_count(*self),
            r.nominal_rate_hz == NOMINAL_RATE_HZ,
            r.labels@.map_values(|l: String| l@) == channel_labels(*self),
    {
        match self {
            Recording::Accelerometry => {
                let labels = vec!["Pitch".to_owned(), "Roll".to_owned(), "Yaw".to_owned()];
                assert(labels@.map_values(|l: String| l@) =~= channel_labels(*self));
                StreamDescriptor {
                    name: name.to_owned(),
                    content_type: "Accelerometry".to_owned(),
                    channel_count: 3,
                    nominal_rate_hz: NOMINAL_RATE_HZ,
                    source_id: name.to_owned(),
                    labels,
                }
            },
            Recording::Pressure => {
                let labels: Vec<String> = Vec::new();
                assert(labels@.map_values(|l: String| l@) =~= channel_labels(*self));
                StreamDescriptor {
                    name: name.to_owned(),
                    content_type: "Pressure".to_owned(),
                    channel_count: 16,
                    nominal_rate_hz: NOMINAL_RATE_HZ,
                    source_id: name.to_owned(),
                    labels,
                }
            },
        }
    }
}

} // verus!
