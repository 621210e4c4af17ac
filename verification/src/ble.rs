//! The BLE sample reassembler: one notification carries one sample or a batch
//! of ten.

use vstd::prelude::*;
use crate::continuity::{advance, classify, Continuity, ContinuityTracker};
use crate::profile::BLE_SAMPLE_LEN;
use crate::sample::{
    block_sample,
    block_samples,
    decode_block,
    decode_blocks,
    sample_models,
    Sample,
    SampleModel,
};
use crate::supervisor::{action_for, Action, Event, PhaseModel, Supervisor};
use crate::text::{
    contains_text,
    lowercase_of,
    replace_all,
    replaced,
    same_text,
    text_contains,
    to_lowercase,
};
use vstd::utf8::encode_utf8;

verus! {

/// Length of one sample in a notification.
pub const SINGLE_SAMPLE_LEN: usize = BLE_SAMPLE_LEN;

/// Samples in a batched notification.
pub const BLOCK_COUNT: usize = 10;

/// Length of a batched notification.
pub const NEW_PACKET_LEN: usize = SINGLE_SAMPLE_LEN * BLOCK_COUNT;

/// The samples of a notification: ten where it has the length of a batch, one
/// where it has the length of a single sample, none for any other length.
pub open spec fn reassembled(notification: Seq<u8>) -> Seq<SampleModel> {
    if notification.len() == NEW_PACKET_LEN {
        block_samples(notification, SINGLE_SAMPLE_LEN as int, BLOCK_COUNT as nat)
    } else if notification.len() == SINGLE_SAMPLE_LEN {
        block_samples(notification, SINGLE_SAMPLE_LEN as int, 1)
    } else {
        seq![]
    }
}

/// Splits one notification into its samples, in the order in which they lie.
/// A notification of unexpected length holds none.
pub fn reassemble(notification: &[u8]) -> (samples: Vec<Sample>)
    ensures
        sample_models(samples@) == reassembled(notification@),
        notification@.len() == NEW_PACKET_LEN ==> samples@.len() == BLOCK_COUNT,
        notification@.len() == SINGLE_SAMPLE_LEN ==> samples@.len() == 1,
        notification@.len() != NEW_PACKET_LEN && notification@.len() != SINGLE_SAMPLE_LEN
            ==> samples@.len() == 0,
{
    let len: usize = notification.len();
    let samples = if len == NEW_PACKET_LEN {
        decode_blocks(notification, SINGLE_SAMPLE_LEN, BLOCK_COUNT)
    } else if len == SINGLE_SAMPLE_LEN {
        decode_blocks(notification, SINGLE_SAMPLE_LEN, 1)
    } else {
        let none: Vec<Sample> = Vec::new();
        assert(sample_models(none@) =~= reassembled(notification@));
        none
    };
    assert(sample_models(samples@).len() == samples@.len());
    samples
}

/// Why a BLE sample could not be read.
#[derive(Clone, Copy, Debug, PartialEq, Eq, Structural)]
pub enum BleError {
    /// The chunk does not have the length of one sample.
    InvalidSampleLength,
}

impl BleError {
    /// The error in words.
    pub fn message(&self) -> (text: &'static str)
        ensures
            text@ == "Invalid sample length"@,
    {
        "Invalid sample length"
    }
}

/// One BLE sample and what its counter says.
#[derive(Debug, PartialEq, Eq)]
pub struct ProcessedSample {
    pub sample: Sample,
    pub verdict: Continuity,
}

/// Decodes one sample of exactly seven bytes and passes its counter through
/// the tracker. Any other length is an error and leaves the tracker alone.
pub fn process_ble_sample(sample: &[u8], tracker: &mut ContinuityTracker) -> (processed: Result<
    ProcessedSample,
    BleError,
>)
    ensures
        processed is Ok <==> sample@.len() == SINGLE_SAMPLE_LEN,
        processed matches Ok(p) ==> {
            &&& p.sample@ == block_sample(sample@, 0)
            &&& p.verdict == classify(old(tracker).last(), sample@[0])
            &&& final(tracker).last() == advance(old(tracker).last(), sample@[0])
        },
        processed matches Err(e) ==> e == BleError::InvalidSampleLength && *final(tracker) == *old(
            tracker,
        ),
{
    if sample.len() != SINGLE_SAMPLE_LEN {
        return Err(BleError::InvalidSampleLength);
    }
    let decoded = decode_block(sample, 0);
    let verdict = tracker.check(decoded.counter);
    Ok(ProcessedSample { sample: decoded, verdict })
}

/// Closes the BLE outlet from any state, any number of times: the session, if
/// there is one, ends, and with it the continuity state; the supervisor is
/// idle afterwards. The action says whether an outlet is to be released.
pub fn close_ble_outlet(supervisor: &mut Supervisor) -> (action: Action)
    ensures
        final(supervisor)@ == PhaseModel::Idle,
        action == action_for(old(supervisor)@, Event::Stop),
{
    supervisor.stop()
}

/// The characteristic that notifies of samples.
pub const DATA_CHARACTERISTIC: u128 = 0xbeb5483e_36e1_4688_b7f5_ea07361b26a8;

/// The characteristic that takes the start and stop commands.
pub const CONTROL_CHARACTERISTIC: u128 = 0x0000ff01_0000_1000_8000_00805f9b34fb;

/// Where the two characteristics of the service are in the list that the
/// peripheral gave.
#[derive(Clone, Copy, Debug, PartialEq, Eq, Structural)]
pub struct Characteristics {
    pub data: usize,
    pub control: usize,
}

/// Which characteristic a peripheral lacks.
#[derive(Clone, Copy, Debug, PartialEq, Eq, Structural)]
pub enum CharacteristicError {
    DataMissing,
    ControlMissing,
}

impl CharacteristicError {
    /// The error in words.
    pub fn message(&self) -> (text: &'static str)
        ensures
            text@ == match self {
                CharacteristicError::DataMissing => "Data characteristic missing"@,
                CharacteristicError::ControlMissing => "Control characteristic missing"@,
            },
    {
        match self {
            CharacteristicError::DataMissing => "Data characteristic missing",
            CharacteristicError::ControlMissing => "Control characteristic missing",
        }
    }
}

/// Whether `index` is the first place of `uuid` in `uuids`.
pub open spec fn first_index_of(uuids: Seq<u128>, uuid: u128, index: int) -> bool {
    &&& 0 <= index < uuids.len()
    &&& uuids[index] == uuid
    &&& forall|i: int| 0 <= i < index ==> uuids[i] != uuid
}

/// The first place of `uuid` in `uuids`.
pub fn position_of(uuids: &[u128], uuid: u128) -> (position: Option<usize>)
    ensures
        position matches Some(index) ==> first_index_of(uuids@, uuid, index as int),
        position is None ==> !uuids@.contains(uuid),
{
    let len: usize = uuids.len();
    let mut i: usize = 0;
    while i < len
        invariant
            i <= len,
            len == uuids@.len(),
            forall|j: int| 0 <= j < i ==> uuids@[j] != uuid,
        decreases len - i,
    {
        if uuids[i] == uuid {
            return Some(i);
        }
        i += 1;
    }
    None
}

/// Finds the data and the control characteristic among those of a peripheral,
/// given by their 128-bit identifiers. The data characteristic is looked for
/// first.
pub fn find_characteristics(uuids: &[u128]) -> (found: Result<Characteristics, CharacteristicError>)
    ensures
        found is Ok <==> uuids@.contains(DATA_CHARACTERISTIC) && uuids@.contains(
            CONTROL_CHARACTERISTIC,
        ),
        found matches Ok(places) ==> first_index_of(
            uuids@,
            DATA_CHARACTERISTIC,
            places.data as int,
        ) && first_index_of(uuids@, CONTROL_CHARACTERISTIC, places.control as int),
        found matches Err(error) ==> (error is DataMissing <==> !uuids@.contains(
            DATA_CHARACTERISTIC,
        )),
{
    match position_of(uuids, DATA_CHARACTERISTIC) {
        None => Err(CharacteristicError::DataMissing),
        Some(data) => match position_of(uuids, CONTROL_CHARACTERISTIC) {
            None => Err(CharacteristicError::ControlMissing),
            Some(control) => Ok(Characteristics { data, control }),
        },
    }
}

/// Whether a name that is in lowercase already marks one of our devices: it
/// holds `npg`.
pub open spec fn supported_lowercase_name(lowered: Seq<char>) -> bool {
    text_contains(lowered, "npg"@)
}

/// Whether a device of this advertised name is one of ours: its name, in
/// lowercase, holds `npg`.
pub open spec fn supported_name(name: Seq<char>) -> bool {
    supported_lowercase_name(lowercase_of(name))
}

/// Whether a name that is in lowercase already marks one of our devices.
pub fn is_supported_lowercase_name(lowered: &str) -> (supported: bool)
    ensures
        supported == supported_lowercase_name(lowered@),
{
    contains_text(lowered, "npg")
}

/// Whether a device of this advertised name is one of ours.
pub fn is_supported_device_name(name: &str) -> (supported: bool)
    ensures
        supported == supported_name(name@),
{
    let lowered = to_lowercase(name);
    is_supported_lowercase_name(lowered.as_str())
}

/// The Bluetooth adapter families that name their peripherals differently.
#[derive(Clone, Copy, Debug, PartialEq, Eq, Structural)]
pub enum AdapterKind {
    Windows,
    LinuxHci,
    Other,
}

/// The family of an adapter, from what it says of itself in lowercase.
pub open spec fn adapter_kind_of_lowercase(lowered: Seq<char>) -> AdapterKind {
    if text_contains(lowered, "winrt"@) || text_contains(lowered, "windows"@) {
        AdapterKind::Windows
    } else if text_contains(lowered, "hci"@) {
        AdapterKind::LinuxHci
    } else {
        AdapterKind::Other
    }
}

/// The family of an adapter, from what it says of itself.
pub open spec fn adapter_kind_of(info: Seq<char>) -> AdapterKind {
    adapter_kind_of_lowercase(lowercase_of(info))
}

/// The family of an adapter, from what it says of itself in lowercase.
pub fn classify_lowercase_adapter(lowered: &str) -> (kind: AdapterKind)
    ensures
        kind == adapter_kind_of_lowercase(lowered@),
{
    if contains_text(lowered, "winrt") || contains_text(lowered, "windows") {
        AdapterKind::Windows
    } else if contains_text(lowered, "hci") {
        AdapterKind::LinuxHci
    } else {
        AdapterKind::Other
    }
}

/// The family of an adapter, from what it says of itself.
pub fn classify_adapter(info: &str) -> (kind: AdapterKind)
    ensures
        kind == adapter_kind_of(info@),
{
    let lowered = to_lowercase(info);
    classify_lowercase_adapter(lowered.as_str())
}

/// How long to scan before the peripherals of an adapter are listed; `None`
/// where no scan is needed.
pub fn scan_before_listing_ms(kind: AdapterKind) -> (wait_ms: Option<u64>)
    ensures
        wait_ms == match kind {
            AdapterKind::Windows => Some(2000u64),
            AdapterKind::LinuxHci => None,
            AdapterKind::Other => Some(1000u64),
        },
{
    match kind {
        AdapterKind::Windows => Some(2000),
        AdapterKind::LinuxHci => None,
        AdapterKind::Other => Some(1000),
    }
}

/// A peripheral identifier as Windows gives it, reduced to its address: the
/// enumerator prefixes and the colons taken out, in lowercase.
pub open spec fn windows_peripheral_key(id: Seq<char>) -> Seq<char> {
    lowercase_of(
        replaced(replaced(replaced(id, "BTHENUM\\"@, ""@), "DEV_"@, ""@), ":"@, ""@),
    )
}

/// The identifier that the collaborator asked for, reduced in the same way.
pub open spec fn windows_target_key(id: Seq<char>) -> Seq<char> {
    lowercase_of(replaced(id, ":"@, ""@))
}

/// Whether two identifiers that are reduced already name the same device:
/// on Windows the key of the peripheral has to hold the key of the target;
/// elsewhere the two have to be the same text.
pub open spec fn keys_match(kind: AdapterKind, peripheral_key: Seq<char>, target_key: Seq<char>) -> bool {
    match kind {
        AdapterKind::Windows => text_contains(peripheral_key, target_key),
        _ => encode_utf8(peripheral_key) == encode_utf8(target_key),
    }
}

/// Whether the peripheral named `peripheral_id` is the device that the
/// collaborator asked for. On Windows both identifiers are reduced first;
/// elsewhere they are taken as they are.
pub open spec fn peripheral_is_target(
    kind: AdapterKind,
    peripheral_id: Seq<char>,
    device_id: Seq<char>,
) -> bool {
    match kind {
        AdapterKind::Windows => keys_match(
            kind,
            windows_peripheral_key(peripheral_id),
            windows_target_key(device_id),
        ),
        _ => keys_match(kind, peripheral_id, device_id),
    }
}

/// Whether two identifiers that are reduced already name the same device.
pub fn reduced_ids_match(kind: AdapterKind, peripheral_key: &str, target_key: &str) -> (matches:
    bool)
    ensures
        matches == keys_match(kind, peripheral_key@, target_key@),
{
    match kind {
        AdapterKind::Windows => contains_text(peripheral_key, target_key),
        _ => same_text(peripheral_key, target_key),
    }
}

/// Whether the peripheral named `peripheral_id` is the device that the
/// collaborator asked for.
pub fn peripheral_matches(kind: AdapterKind, peripheral_id: &str, device_id: &str) -> (matches: bool)
    ensures
        matches == peripheral_is_target(kind, peripheral_id@, device_id@),
{
    match kind {
        AdapterKind::Windows => {
            let without_enumerator = replace_all(peripheral_id, "BTHENUM\\", "");
            let without_prefix = replace_all(without_enumerator.as_str(), "DEV_", "");
            let without_colons = replace_all(without_prefix.as_str(), ":", "");
            let peripheral_key = to_lowercase(without_colons.as_str());
            let target = replace_all(device_id, ":", "");
            let target_key = to_lowercase(target.as_str());
            reduced_ids_match(kind, peripheral_key.as_str(), target_key.as_str())
        },
        _ => reduced_ids_match(kind, peripheral_id, device_id),
    }
}

} // verus!
