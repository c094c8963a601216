use vstd::prelude::*;

verus! {

/// The health level that the sensor reports for its CO2 reading.
#[derive(Clone, Copy, Debug, PartialEq, Eq, Structural)]
pub enum Status {
    Green,
    Yellow,
    Red,
    Unknown,
}

/// The level that a raw status byte stands for: 1, 2 and 3 are the levels the
/// firmware defines, every other byte is `Unknown`.
pub open spec fn status_of(b: u8) -> Status {
    if b == 1 {
        Status::Green
    } else if b == 2 {
        Status::Yellow
    } else if b == 3 {
        Status::Red
    } else {
        Status::Unknown
    }
}

/// Maps a raw status byte to its level.
pub fn status_from_byte(b: u8) -> (r: Status)
    ensures
        r == status_of(b),
{
    match b {
        1 => Status::Green,
        2 => Status::Yellow,
        3 => Status::Red,
        _ => Status::Unknown,
    }
}

/// Every byte maps to one level, and only 1, 2 and 3 map to a known one.
pub proof fn status_mapping_is_total(b: u8)
    ensures
        status_of(b) == Status::Green || status_of(b) == Status::Yellow
            || status_of(b) == Status::Red || status_of(b) == Status::Unknown,
        status_of(b) != Status::Unknown <==> 1 <= b <= 3,
        status_of(b) == Status::Green <==> b == 1,
        status_of(b) == Status::Yellow <==> b == 2,
        status_of(b) == Status::Red <==> b == 3,
{
}

impl Status {
    /// The text under which the level is shown and stored.
    pub open spec fn label_spec(self) -> Seq<char> {
        match self {
            Status::Green => "GREEN"@,
            Status::Yellow => "YELLOW"@,
            Status::Red => "RED"@,
            Status::Unknown => "UNKNOWN"@,
        }
    }

    pub fn label(&self) -> (r: &'static str)
        ensures
            r@ == self.label_spec(),
    {
        match self {
            Status::Green => "GREEN",
            Status::Yellow => "YELLOW",
            Status::Red => "RED",
            Status::Unknown => "UNKNOWN",
        }
    }
}

/// The ASCII bytes of a level's label.
pub open spec fn label_bytes(s: Status) -> Seq<u8> {
    match s {
        Status::Green => seq![71u8, 82u8, 69u8, 69u8, 78u8],
        Status::Yellow => seq![89u8, 69u8, 76u8, 76u8, 79u8, 87u8],
        Status::Red => seq![82u8, 69u8, 68u8],
        Status::Unknown => seq![85u8, 78u8, 75u8, 78u8, 79u8, 87u8, 78u8],
    }
}

/// The level whose label is `b`; text that is no label reads as `Unknown`.
pub open spec fn status_of_label(b: Seq<u8>) -> Status {
    if b == label_bytes(Status::Green) {
        Status::Green
    } else if b == label_bytes(Status::Yellow) {
        Status::Yellow
    } else if b == label_bytes(Status::Red) {
        Status::Red
    } else {
        Status::Unknown
    }
}

fn same_bytes(a: &[u8], b: &[u8]) -> (r: bool)
    ensures
        r == (a@ == b@),
{
    if a.len() != b.len() {
        return false;
    }
    let mut i: usize = 0;
    while i < a.len()
        invariant
            a@.len() == b@.len(),
            0 <= i <= a@.len(),
            forall|j: int| 0 <= j < i ==> a@[j] == b@[j],
        decreases a@.len() - i,
    {
        if a[i] != b[i] {
            return false;
        }
        i += 1;
    }
    assert(a@ =~= b@);
    true
}

/// Reads a stored label (as UTF-8 bytes) back into its level.
pub fn status_from_label(label: &[u8]) -> (r: Status)
    ensures
        r == status_of_label(label@),
{
    let green: [u8; 5] = [71u8, 82u8, 69u8, 69u8, 78u8];
    let yellow: [u8; 6] = [89u8, 69u8, 76u8, 76u8, 79u8, 87u8];
    let red: [u8; 3] = [82u8, 69u8, 68u8];
    assert(green@ =~= label_bytes(Status::Green));
    assert(yellow@ =~= label_bytes(Status::Yellow));
    assert(red@ =~= label_bytes(Status::Red));
    if same_bytes(label, green.as_slice()) {
        Status::Green
    } else if same_bytes(label, yellow.as_slice()) {
        Status::Yellow
    } else if same_bytes(label, red.as_slice()) {
        Status::Red
    } else {
        Status::Unknown
    }
}

/// A level's label reads back as that level.
pub proof fn label_reads_back(s: Status)
    ensures
        status_of_label(label_bytes(s)) == s,
{
    assert(label_bytes(Status::Green)[0] != label_bytes(Status::Yellow)[0]);
    assert(label_bytes(Status::Green)[0] != label_bytes(Status::Red)[0]);
    assert(label_bytes(Status::Yellow)[0] != label_bytes(Status::Red)[0]);
    assert(label_bytes(Status::Unknown)[0] != label_bytes(Status::Green)[0]);
    assert(label_bytes(Status::Unknown)[0] != label_bytes(Status::Yellow)[0]);
    assert(label_bytes(Status::Unknown)[0] != label_bytes(Status::Red)[0]);
}

/// One decoded reading of the sensor.
///
/// The temperature is kept as the device sends it, in twentieths of a degree
/// Celsius; the pressure is already in whole hPa.
#[derive(Clone, Copy, Debug, PartialEq, Eq, Structural)]
pub struct SensorReading {
    /// CO2 concentration in ppm.
    pub co2: u16,
    /// Temperature in twentieths of a degree Celsius.
    pub temperature_raw: u16,
    /// Relative humidity in whole percent.
    pub humidity: u8,
    /// Pressure in whole hPa.
    pub pressure: u16,
    /// Battery charge in percent.
    pub battery: u8,
    /// Seconds since the Unix epoch at which the payload was decoded.
    pub timestamp: u64,
    pub status: Status,
}

} // verus!
