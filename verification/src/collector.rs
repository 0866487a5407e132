//! Rules of the trial recorder: class numbering, channel labels, the header
//! of the sample file, batching of samples, and when a collection ends.
//! Files, sockets and the sample values themselves are the caller's.

use vstd::prelude::*;
use vstd::string::StringExecFns;

verus! {

/// Number of electrode positions that have a label.
pub const LABELLED_CHANNELS: usize = 8;

/// The class that an unknown name is counted as: rest.
pub const REST_CLASS: u8 = 3;

/// The lower-case form of a text as `str::to_lowercase` gives it.
pub uninterp spec fn lowercase(text: Seq<char>) -> Seq<char>;

/// Calls `str::to_lowercase`. Trusted: that the result is a function of the
/// text alone.
#[verifier::external_body]
fn to_lowercase(text: &str) -> (lowered: String)
    ensures
        lowered@ == lowercase(text@),
{
    text.to_lowercase()
}

fn same_text(text: &str, other: &str) -> (same: bool)
    ensures
        same == (text@ == other@),
{
    let a = text.to_owned();
    let b = other.to_owned();
    a == b
}

/// The class that the lower-case name `lowered` names, if it names one.
pub open spec fn named_class(lowered: Seq<char>) -> Option<u8> {
    if lowered == "left_hand"@ || lowered == "left"@ {
        Some(0u8)
    } else if lowered == "right_hand"@ || lowered == "right"@ {
        Some(1u8)
    } else if lowered == "both_hands"@ || lowered == "both"@ {
        Some(2u8)
    } else if lowered == "rest"@ || lowered == "baseline"@ {
        Some(REST_CLASS)
    } else {
        None
    }
}

/// The number of the class with the lower-case name `lowered`: a name that
/// names no class counts as rest.
pub open spec fn class_id(lowered: Seq<char>) -> u8 {
    match named_class(lowered) {
        Some(id) => id,
        None => REST_CLASS,
    }
}

/// Looks a class up by its lower-case name: 0 for the left hand, 1 for the
/// right hand, 2 for both hands, 3 for rest and baseline.
pub fn class_named(lowered: &str) -> (class: Option<u8>)
    ensures
        class == named_class(lowered@),
{
    if same_text(lowered, "left_hand") || same_text(lowered, "left") {
        Some(0)
    } else if same_text(lowered, "right_hand") || same_text(lowered, "right") {
        Some(1)
    } else if same_text(lowered, "both_hands") || same_text(lowered, "both") {
        Some(2)
    } else if same_text(lowered, "rest") || same_text(lowered, "baseline") {
        Some(REST_CLASS)
    } else {
        None
    }
}

/// Numbers a class by its lower-case name; every name that names no class is
/// numbered as rest.
pub fn class_id_of(lowered: &str) -> (id: u8)
    ensures
        id == class_id(lowered@),
        id <= REST_CLASS,
{
    match class_named(lowered) {
        Some(id) => id,
        None => REST_CLASS,
    }
}

/// Numbers a motor-imagery class by its name, in whatever case it is written.
pub fn get_class_id(class_name: &str) -> (id: u8)
    ensures
        id == class_id(lowercase(class_name@)),
        id <= REST_CLASS,
{
    let lowered = to_lowercase(class_name);
    class_id_of(lowered.as_str())
}

/// Whether a name, in whatever case it is written, names a class.
pub fn is_class_name(class_name: &str) -> (known: bool)
    ensures
        known == named_class(lowercase(class_name@)).is_some(),
{
    let lowered = to_lowercase(class_name);
    class_named(lowered.as_str()).is_some()
}

/// The label of channel `index`.
pub open spec fn channel_label(index: int) -> Seq<char> {
    if index == 0 {
        "C3_left_motor"@
    } else if index == 1 {
        "C4_right_motor"@
    } else if index == 2 {
        "Cz_central"@
    } else if index == 3 {
        "F3_frontal_left"@
    } else if index == 4 {
        "F4_frontal_right"@
    } else if index == 5 {
        "P3_parietal_left"@
    } else if index == 6 {
        "P4_parietal_right"@
    } else {
        "O1_occipital_left"@
    }
}

fn label_of(index: usize) -> (label: String)
    ensures
        label@ == channel_label(index as int),
{
    if index == 0 {
        String::from_str("C3_left_motor")
    } else if index == 1 {
        String::from_str("C4_right_motor")
    } else if index == 2 {
        String::from_str("Cz_central")
    } else if index == 3 {
        String::from_str("F3_frontal_left")
    } else if index == 4 {
        String::from_str("F4_frontal_right")
    } else if index == 5 {
        String::from_str("P3_parietal_left")
    } else if index == 6 {
        String::from_str("P4_parietal_right")
    } else {
        String::from_str("O1_occipital_left")
    }
}

/// How many channels of `num_channels` get a label.
pub open spec fn labelled(num_channels: usize) -> int {
    if num_channels <= LABELLED_CHANNELS {
        num_channels as int
    } else {
        LABELLED_CHANNELS as int
    }
}

/// The labels of the first `num_channels` channels; there are no more than
/// eight.
pub fn generate_channel_labels(num_channels: usize) -> (labels: Vec<String>)
    ensures
        labels@.len() == labelled(num_channels),
        forall|i: int| 0 <= i < labels@.len() ==> (#[trigger] labels@[i])@ == channel_label(i),
{
    let count = if num_channels <= LABELLED_CHANNELS {
        num_channels
    } else {
        LABELLED_CHANNELS
    };
    let mut labels: Vec<String> = Vec::new();
    let mut i: usize = 0;
    while i < count
        invariant
            i <= count,
            labels@.len() == i,
            forall|j: int| 0 <= j < i ==> (#[trigger] labels@[j])@ == channel_label(j),
        decreases count - i,
    {
        labels.push(label_of(i));
        i = i + 1;
    }
    labels
}

/// Column `index` of the header of the sample file.
pub open spec fn header_column(index: int) -> Seq<char> {
    if index == 0 {
        "timestamp"@
    } else if index == 1 {
        "sample_id"@
    } else if index == 2 {
        "class_id"@
    } else {
        channel_label(index - 3)
    }
}

/// The header of the sample file: time, sample number and class, then one
/// column for each labelled channel.
pub fn csv_header(num_channels: usize) -> (header: Vec<String>)
    ensures
        header@.len() == 3 + labelled(num_channels),
        forall|i: int| 0 <= i < header@.len() ==> (#[trigger] header@[i])@ == header_column(i),
{
    let mut header: Vec<String> = Vec::new();
    header.push(String::from_str("timestamp"));
    header.push(String::from_str("sample_id"));
    header.push(String::from_str("class_id"));
    let mut labels = generate_channel_labels(num_channels);
    let ghost fixed = header@;
    let ghost tail = labels@;
    header.append(&mut labels);
    assert forall|i: int| 0 <= i < header@.len() implies (#[trigger] header@[i])@ == header_column(
        i,
    ) by {
        if i >= 3 {
            assert(header@[i] == tail[i - 3]);
        } else {
            assert(header@[i] == fixed[i]);
        }
    }
    header
}

/// Electrodes of a recording.
#[derive(Debug)]
pub struct ElectrodeConfig {
    pub channels: Vec<String>,
    pub reference: String,
    pub ground: String,
}

impl ElectrodeConfig {
    /// The montage of a recording with `num_channels` channels: the labelled
    /// channels, referenced to Cz and grounded at Fpz.
    pub fn for_channels(num_channels: usize) -> (config: ElectrodeConfig)
        ensures
            config.channels@.len() == labelled(num_channels),
            forall|i: int|
                0 <= i < config.channels@.len() ==> (#[trigger] config.channels@[i])@
                    == channel_label(i),
            config.reference@ == "Cz"@,
            config.ground@ == "Fpz"@,
    {
        ElectrodeConfig {
            channels: generate_channel_labels(num_channels),
            reference: String::from_str("Cz"),
            ground: String::from_str("Fpz"),
        }
    }
}

/// Samples waiting to be written as one batch.
pub struct DataBuffer<T> {
    samples: Vec<T>,
    capacity: usize,
}

impl<T> DataBuffer<T> {
    /// The samples held, oldest first.
    pub closed spec fn samples(&self) -> Seq<T> {
        self.samples@
    }

    /// The number of samples from which on the buffer counts as full.
    pub closed spec fn capacity(&self) -> usize {
        self.capacity
    }

    /// An empty buffer that is full at `capacity` samples.
    pub fn new(capacity: usize) -> (buffer: DataBuffer<T>)
        ensures
            buffer.samples() == Seq::<T>::empty(),
            buffer.capacity() == capacity,
    {
        DataBuffer { samples: Vec::new(), capacity }
    }

    /// Adds a sample and says whether the buffer is now full.
    pub fn push(&mut self, sample: T) -> (full: bool)
        ensures
            final(self).samples() == old(self).samples().push(sample),
            final(self).capacity() == old(self).capacity(),
            full == (final(self).samples().len() >= final(self).capacity()),
    {
        self.samples.push(sample);
        self.samples.len() >= self.capacity
    }

    /// Takes all samples out, oldest first, and leaves the buffer empty.
    pub fn clear(&mut self) -> (batch: Vec<T>)
        ensures
            batch@ == old(self).samples(),
            final(self).samples() == Seq::<T>::empty(),
            final(self).capacity() == old(self).capacity(),
    {
        let mut batch: Vec<T> = Vec::new();
        std::mem::swap(&mut self.samples, &mut batch);
        batch
    }

    /// The number of samples held.
    pub fn len(&self) -> (count: usize)
        ensures
            count == self.samples().len(),
    {
        self.samples.len()
    }
}

/// What one read from the stream gave.
#[derive(Clone, Copy, Debug, PartialEq, Eq, Structural)]
pub enum ReadOutcome {
    /// The peer closed the connection.
    Closed,
    /// Bytes arrived.
    Data,
    /// The read failed.
    Failed,
    /// Nothing arrived within the wait.
    TimedOut,
}

/// Whether the collection goes on after a read: it ends when the connection
/// is closed or the read fails.
pub fn keeps_collecting(outcome: ReadOutcome) -> (goes_on: bool)
    ensures
        goes_on == (outcome == ReadOutcome::Data || outcome == ReadOutcome::TimedOut),
{
    match outcome {
        ReadOutcome::Data | ReadOutcome::TimedOut => true,
        ReadOutcome::Closed | ReadOutcome::Failed => false,
    }
}

/// Whether a collection of `duration_secs` seconds has run its time after
/// `elapsed_millis` milliseconds. A duration of zero sets no limit.
pub fn duration_reached(duration_secs: u64, elapsed_millis: u64) -> (reached: bool)
    ensures
        reached == (duration_secs > 0 && elapsed_millis >= duration_secs * 1000),
{
    duration_secs > 0 && elapsed_millis / 1000 >= duration_secs
}

/// The decimal digit with value `value`.
pub open spec fn digit(value: int) -> char {
    if value == 0 {
        '0'
    } else if value == 1 {
        '1'
    } else if value == 2 {
        '2'
    } else if value == 3 {
        '3'
    } else if value == 4 {
        '4'
    } else if value == 5 {
        '5'
    } else if value == 6 {
        '6'
    } else if value == 7 {
        '7'
    } else if value == 8 {
        '8'
    } else {
        '9'
    }
}

/// The decimal numeral of `number`, without leading zeros.
pub open spec fn decimal(number: nat) -> Seq<char>
    decreases number,
{
    if number < 10 {
        seq![digit(number as int)]
    } else {
        decimal(number / 10).push(digit((number % 10) as int))
    }
}

/// The decimal numeral of `number`, with a leading zero where it has one
/// digit only.
pub open spec fn two_digits(number: nat) -> Seq<char> {
    if number < 10 {
        seq!['0'] + decimal(number)
    } else {
        decimal(number)
    }
}

fn digit_text(value: u32) -> (text: &'static str)
    requires
        value < 10,
    ensures
        text@ == seq![digit(value as int)],
{
    proof {
        reveal_strlit("0");
        reveal_strlit("1");
        reveal_strlit("2");
        reveal_strlit("3");
        reveal_strlit("4");
        reveal_strlit("5");
        reveal_strlit("6");
        reveal_strlit("7");
        reveal_strlit("8");
        reveal_strlit("9");
    }
    let text = if value == 0 {
        "0"
    } else if value == 1 {
        "1"
    } else if value == 2 {
        "2"
    } else if value == 3 {
        "3"
    } else if value == 4 {
        "4"
    } else if value == 5 {
        "5"
    } else if value == 6 {
        "6"
    } else if value == 7 {
        "7"
    } else if value == 8 {
        "8"
    } else {
        "9"
    };
    assert(text@ =~= seq![digit(value as int)]);
    text
}

/// Writes `number` as a decimal numeral.
pub fn decimal_text(number: u32) -> (text: String)
    ensures
        text@ == decimal(number as nat),
    decreases number,
{
    if number < 10 {
        String::from_str(digit_text(number))
    } else {
        let mut text = decimal_text(number / 10);
        let last = digit_text(number % 10);
        text.append(last);
        assert(text@ =~= decimal((number / 10) as nat).push(digit((number % 10) as int)));
        text
    }
}

/// Writes `number` as a decimal numeral of at least two digits.
pub fn two_digit_text(number: u32) -> (text: String)
    ensures
        text@ == two_digits(number as nat),
{
    if number < 10 {
        proof {
            reveal_strlit("0");
        }
        let mut text = String::from_str("0");
        text.append(digit_text(number));
        assert(text@ =~= seq!['0'] + decimal(number as nat));
        text
    } else {
        decimal_text(number)
    }
}

/// The name of the sample file of a trial.
pub open spec fn csv_file_name_of(
    subject_id: Seq<char>,
    class_label: Seq<char>,
    session_id: Seq<char>,
    trial: u32,
    class_id: u8,
    timestamp: Seq<char>,
) -> Seq<char> {
    subject_id + "_"@ + class_label + "_"@ + session_id + "_trial_"@ + two_digits(trial as nat)
        + "_class_"@ + decimal(class_id as nat) + "_"@ + timestamp + ".csv"@
}

/// The name of the metadata file of a trial.
pub open spec fn metadata_file_name_of(
    subject_id: Seq<char>,
    class_label: Seq<char>,
    trial: u32,
    class_id: u8,
) -> Seq<char> {
    subject_id + "_"@ + class_label + "_trial_"@ + two_digits(trial as nat) + "_class_"@ + decimal(
        class_id as nat,
    ) + "_metadata.json"@
}

/// Names the sample file of a trial: subject, class label, session, trial
/// number in at least two digits, class number and the time stamp that the
/// caller took, in that order.
pub fn csv_file_name(
    subject_id: &str,
    class_label: &str,
    session_id: &str,
    trial: u32,
    class_id: u8,
    timestamp: &str,
) -> (name: String)
    ensures
        name@ == csv_file_name_of(
            subject_id@,
            class_label@,
            session_id@,
            trial,
            class_id,
            timestamp@,
        ),
{
    let trial_text = two_digit_text(trial);
    let class_text = decimal_text(class_id as u32);
    let mut name = subject_id.to_owned();
    name.append("_");
    name.append(class_label);
    name.append("_");
    name.append(session_id);
    name.append("_trial_");
    name.append(trial_text.as_str());
    name.append("_class_");
    name.append(class_text.as_str());
    name.append("_");
    name.append(timestamp);
    name.append(".csv");
    name
}

/// Names the metadata file of a trial: subject, class label, trial number in
/// at least two digits and class number, in that order.
pub fn metadata_file_name(subject_id: &str, class_label: &str, trial: u32, class_id: u8) -> (name:
    String)
    ensures
        name@ == metadata_file_name_of(subject_id@, class_label@, trial, class_id),
{
    let trial_text = two_digit_text(trial);
    let class_text = decimal_text(class_id as u32);
    let mut name = subject_id.to_owned();
    name.append("_");
    name.append(class_label);
    name.append("_trial_");
    name.append(trial_text.as_str());
    name.append("_class_");
    name.append(class_text.as_str());
    name.append("_metadata.json");
    name
}

} // verus!
