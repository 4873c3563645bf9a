//! Selection of a physical device: the first device, in the order in which
//! the platform lists them, that has a queue family for graphics commands.

use vstd::prelude::*;
use crate::platform::has_graphics_flag;
use crate::router::{LogLevel, LogRecord};

verus! {

/// Why a device was found unsuitable. The field names what the device
/// lacks; `message` makes the sentence.
#[derive(Debug)]
pub struct SuitabilityError(pub &'static str);

/// The queue families that the application uses on a device.
#[derive(Copy, Clone, Debug)]
pub struct QueueFamilyIndices {
    pub graphics: u32,
}

/// What the selector reads of one device: its handle, its name, and the
/// capability flags of its queue families in the platform's order.
#[derive(Debug)]
pub struct DeviceInfo {
    pub handle: u64,
    pub name: String,
    pub queue_families: Vec<u32>,
}

/// A device that was passed over, with its place in the enumeration.
#[derive(Debug)]
pub struct Rejection {
    pub index: usize,
    pub name: String,
    pub reason: SuitabilityError,
}

/// The outcome of a selection: the place of the selected device, if there is
/// one, and the devices that were passed over before it.
#[derive(Debug)]
pub struct Selection {
    pub chosen: Option<usize>,
    pub rejections: Vec<Rejection>,
}

/// Whether a queue family with these flags takes graphics commands.
pub open spec fn takes_graphics(flags: u32) -> bool {
    flags & 1 == 1
}

/// Whether no family among the first `upto` takes graphics commands.
pub open spec fn no_graphics_before(families: Seq<u32>, upto: int) -> bool {
    forall|j: int| 0 <= j < upto && j < families.len() ==> !takes_graphics(#[trigger] families[j])
}

/// Whether `index` is the lowest family that takes graphics commands.
pub open spec fn is_graphics_family(families: Seq<u32>, index: int) -> bool {
    &&& 0 <= index < families.len()
    &&& takes_graphics(families[index])
    &&& no_graphics_before(families, index)
}

/// Whether a device with these queue families is suitable: one of them takes
/// graphics commands.
pub open spec fn suitable(families: Seq<u32>) -> bool {
    !no_graphics_before(families, families.len() as int)
}

/// The reason given for a device without a graphics queue family: what the
/// device lacks, named once.
pub open spec fn missing_queue_families() -> Seq<char> {
    "required queue families"@
}

/// The text of a suitability error: the word `Missing`, the reason, a full
/// stop.
pub open spec fn error_text(reason: Seq<char>) -> Seq<char> {
    "Missing "@ + reason + "."@
}

/// The warning for a device that was passed over.
pub open spec fn skip_text(name: Seq<char>, reason: Seq<char>) -> Seq<char> {
    "Skipping physical device ("@ + name + "): "@ + error_text(reason)
}

/// The notice for the device that was selected.
pub open spec fn select_text(name: Seq<char>) -> Seq<char> {
    "Selected physical device ("@ + name + ")"@
}

impl SuitabilityError {
    /// The error as a line of text.
    pub fn message(&self) -> (text: String)
        ensures
            text@ == error_text(self.0@),
    {
        let mut text = String::from_str("Missing ");
        text.append(self.0);
        text.append(".");
        text
    }
}

impl QueueFamilyIndices {
    /// Finds the queue families that the application needs among those of one
    /// device. The graphics family is the lowest one that takes graphics
    /// commands; a device without one is refused. An index beyond `u32` is cut
    /// to its low 32 bits.
    pub fn get(queue_families: &Vec<u32>) -> (found: Result<QueueFamilyIndices, SuitabilityError>)
        ensures
            found is Ok <==> suitable(queue_families@),
            found matches Ok(indices) ==> exists|i: int|
                is_graphics_family(queue_families@, i) && indices.graphics == i as u32,
            found matches Ok(indices) ==> (queue_families@.len() <= u32::MAX ==> is_graphics_family(
                queue_families@,
                indices.graphics as int,
            )),
            found matches Err(error) ==> error.0@ == missing_queue_families(),
    {
        let mut i: usize = 0;
        while i < queue_families.len()
            invariant
                i <= queue_families.len(),
                no_graphics_before(queue_families@, i as int),
            decreases queue_families.len() - i,
        {
            if has_graphics_flag(queue_families[i]) {
                assert(is_graphics_family(queue_families@, i as int));
                return Ok(QueueFamilyIndices { graphics: truncated(i) });
            }
            i += 1;
        }
        Err(SuitabilityError("required queue families"))
    }
}

/// The low 32 bits of an index.
fn truncated(index: usize) -> (low: u32)
    ensures
        low == index as u32,
{
    #[verifier::truncate]
    (index as u32)
}

/// Checks one device: it is suitable if its graphics queue family is found.
pub fn check_physical_device(device: &DeviceInfo) -> (checked: Result<(), SuitabilityError>)
    ensures
        checked is Ok <==> suitable(device.queue_families@),
        checked matches Err(error) ==> error.0@ == missing_queue_families(),
{
    match QueueFamilyIndices::get(&device.queue_families) {
        Ok(_) => Ok(()),
        Err(error) => Err(error),
    }
}

/// Whether `rejections` lists the first `count` devices, each with its place,
/// its name and the reason that it has no graphics queue family.
pub open spec fn rejects_first(devices: Seq<DeviceInfo>, rejections: Seq<Rejection>, count: int) -> bool {
    &&& rejections.len() == count
    &&& count <= devices.len()
    &&& forall|i: int|
        0 <= i < count ==> {
            &&& !suitable(#[trigger] devices[i].queue_families@)
            &&& rejections[i].index == i
            &&& rejections[i].name@ == devices[i].name@
            &&& rejections[i].reason.0@ == missing_queue_families()
        }
}

/// What `choose_physical_device` promises: the chosen device is suitable and
/// every device before it was rejected; where none is chosen, every device
/// was rejected.
pub open spec fn selects(devices: Seq<DeviceInfo>, selection: Selection) -> bool {
    match selection.chosen {
        Some(index) => {
            &&& index < devices.len()
            &&& suitable(devices[index as int].queue_families@)
            &&& rejects_first(devices, selection.rejections@, index as int)
        },
        None => rejects_first(devices, selection.rejections@, devices.len() as int),
    }
}

/// Whether some device of the enumeration is suitable.
pub open spec fn any_suitable(devices: Seq<DeviceInfo>) -> bool {
    exists|i: int| 0 <= i < devices.len() && suitable(#[trigger] devices[i].queue_families@)
}

/// Goes through the devices in the platform's order and selects the first
/// suitable one. A device that is not suitable is recorded and passed over;
/// the devices after the selected one are not looked at.
pub fn choose_physical_device(devices: &Vec<DeviceInfo>) -> (selection: Selection)
    ensures
        selects(devices@, selection),
        selection.chosen is Some <==> any_suitable(devices@),
{
    let mut rejections: Vec<Rejection> = Vec::new();
    let mut i: usize = 0;
    while i < devices.len()
        invariant
            i <= devices.len(),
            rejects_first(devices@, rejections@, i as int),
        decreases devices.len() - i,
    {
        match check_physical_device(&devices[i]) {
            Ok(_) => {
                return Selection { chosen: Some(i), rejections };
            },
            Err(reason) => {
                let ghost before = rejections@;
                rejections.push(Rejection { index: i, name: devices[i].name.clone(), reason });
                assert forall|j: int| 0 <= j <= i implies {
                    &&& !suitable(#[trigger] devices@[j].queue_families@)
                    &&& rejections@[j].index == j
                    &&& rejections@[j].name@ == devices@[j].name@
                    &&& rejections@[j].reason.0@ == missing_queue_families()
                } by {
                    if j < i {
                        assert(rejections@[j] == before[j]);
                        assert(!suitable(devices@[j].queue_families@));
                    }
                    assert(rejections@[j].index == j);
                    assert(rejections@[j].name@ == devices@[j].name@);
                    assert(rejections@[j].reason.0@ == missing_queue_families());
                }
            },
        }
        i += 1;
    }
    Selection { chosen: None, rejections }
}

impl Rejection {
    /// The line that reports the rejection, at warning level.
    pub fn warning(&self) -> (record: LogRecord)
        ensures
            record.level == LogLevel::Warn,
            record.text@ == skip_text(self.name@, self.reason.0@),
    {
        let mut text = String::from_str("Skipping physical device (");
        text.append(self.name.as_str());
        text.append("): ");
        let reason = self.reason.message();
        text.append(reason.as_str());
        proof {
            assert(text@ =~= skip_text(self.name@, self.reason.0@));
        }
        LogRecord { level: LogLevel::Warn, text }
    }
}

/// The line that reports the selected device, at info level.
pub fn selected_notice(device: &DeviceInfo) -> (record: LogRecord)
    ensures
        record.level == LogLevel::Info,
        record.text@ == select_text(device.name@),
{
    let mut text = String::from_str("Selected physical device (");
    text.append(device.name.as_str());
    text.append(")");
    LogRecord { level: LogLevel::Info, text }
}

/// The lowest suitable device is the one selected: no device before the
/// chosen one is suitable, and where none is chosen none is suitable.
pub proof fn selection_is_lowest_suitable(devices: Seq<DeviceInfo>, selection: Selection)
    requires
        selects(devices, selection),
    ensures
        selection.chosen matches Some(index) ==> forall|i: int|
            0 <= i < index ==> !suitable(#[trigger] devices[i].queue_families@),
        selection.chosen is None ==> !any_suitable(devices),
        selection.chosen is Some ==> any_suitable(devices),
{
}

/// Two selections on one enumeration choose the same device and reject the
/// same number of devices.
pub proof fn selection_is_unique(devices: Seq<DeviceInfo>, first: Selection, second: Selection)
    requires
        selects(devices, first),
        selects(devices, second),
    ensures
        first.chosen == second.chosen,
        first.rejections@.len() == second.rejections@.len(),
{
}

} // verus!
