//! Strict decoders of the Comm-B registers: each reads the 56-bit payload
//! of a long frame as one register layout, chosen by the caller, and fails
//! where the payload is outside that register's band.

use vstd::prelude::*;
use vstd::slice::slice_subrange;
use deku::ctx::Order;
use deku::prelude::{DekuContainerRead, DekuError, DekuReader, Reader};
use rs1090::decode::bds::bds05::AirbornePosition;
use rs1090::decode::bds::bds65::AircraftOperationStatus;
use rs1090::decode::bds::bds10::DataLinkCapability;
use rs1090::decode::bds::bds17::CommonUsageGICBCapabilityReport;
use rs1090::decode::bds::bds18::GICBCapabilityReportPart1;
use rs1090::decode::bds::bds19::GICBCapabilityReportPart2;
use rs1090::decode::bds::bds20::AircraftIdentification;
use rs1090::decode::bds::bds21::AircraftAndAirlineRegistrationMarkings;
use rs1090::decode::bds::bds30::ACASResolutionAdvisory;
use rs1090::decode::bds::bds40::SelectedVerticalIntention;
use rs1090::decode::bds::bds44::MeteorologicalRoutineAirReport;
use rs1090::decode::bds::bds45::MeteorologicalHazardReport;
use rs1090::decode::bds::bds50::TrackAndTurnReport;
use rs1090::decode::bds::bds60::HeadingAndSpeedReport;
use crate::frame::{
    decoded_frames, frame_bytes, frame_of, is_frame_length, lemma_frame_of_ignores_case, lenient_decode,
    Band, DecodeError,
};
use crate::hextext::{ascii_lower_text, is_hex_text};

verus! {

/// The payload of a long frame written as hex text: its bytes 5 to 14. A
/// short frame, or text that is no frame, has none.
pub open spec fn payload_of(s: Seq<char>) -> Option<Seq<u8>> {
    match frame_of(s) {
        Some(b) => if b.len() == 14 {
            Some(b.subrange(4, 14))
        } else {
            None
        },
        None => None,
    }
}

/// The bytes of a long frame written as hex text, or `Format`.
fn long_frame_bytes(msg: &str) -> (r: Result<Vec<u8>, DecodeError>)
    ensures
        match payload_of(msg@) {
            Some(p) => (r matches Ok(v) && v@.len() == 14 && v@.subrange(4, 14) == p),
            None => r == Err::<Vec<u8>, DecodeError>(DecodeError::Format),
        },
{
    let bytes = frame_bytes(msg)?;
    if bytes.len() != 14 {
        return Err(DecodeError::Format);
    }
    Ok(bytes)
}

/// The typecode of a payload: its first five bits.
pub open spec fn typecode_of(p: Seq<u8>) -> u8 {
    p[0] >> 3u8
}

/// The category (sub-identifier) of a payload: the three bits after the typecode.
pub open spec fn category_of(p: Seq<u8>) -> u8 {
    p[0] & 7u8
}

/// Typecodes of airborne positions: 9 to 18 or 20 to 22.
pub open spec fn in_airborne_band(tc: u8) -> bool {
    (9 <= tc && tc <= 18) || (20 <= tc && tc <= 22)
}

/// Typecode and category of an operational status: 31, with 0 or 1.
pub open spec fn in_operation_status_band(tc: u8, category: u8) -> bool {
    tc == 31 && category < 2
}

/// What reading a payload as an airborne position of the given typecode gives.
pub uninterp spec fn airborne_position_of(p: Seq<u8>, tc: u8) -> Result<AirbornePosition, DecodeError>;

#[verifier::external_type_specification]
#[verifier::external_body]
pub struct ExAirbornePosition(AirbornePosition);

/// Relies on rs1090's AirbornePosition reader, which takes the typecode as its
/// context and reads the fields that follow the five typecode bits; deku's
/// `Assertion` errors keep their message, the others become `Malformed`.
#[verifier::external_body]
fn read_airborne_position(p: &[u8], tc: u8) -> (r: Result<AirbornePosition, DecodeError>)
    ensures
        r == airborne_position_of(p@, tc),
{
    let mut cursor = std::io::Cursor::new(p);
    let mut reader = Reader::new(&mut cursor);
    let read = reader.skip_bits(5, Order::Msb0)
        .and_then(|()| AirbornePosition::from_reader_with_ctx(&mut reader, tc));
    match read {
        Ok(v) => Ok(v),
        Err(DekuError::Assertion(m)) => Err(DecodeError::Assertion(m.to_string())),
        Err(e) => Err(DecodeError::Malformed(e.to_string())),
    }
}

/// Decodes the payload of a frame as an airborne position (BDS 0,5); its
/// typecode must be 9 to 18 or 20 to 22.
pub fn decode_bds05(msg: &str) -> (r: Result<AirbornePosition, DecodeError>)
    ensures
        match payload_of(msg@) {
            None => r == Err::<AirbornePosition, DecodeError>(DecodeError::Format),
            Some(p) => if in_airborne_band(typecode_of(p)) {
                r == airborne_position_of(p, typecode_of(p))
            } else {
                r == Err::<AirbornePosition, DecodeError>(
                    DecodeError::Range { typecode: typecode_of(p), category: None, band: Band::AirbornePosition },
                )
            },
        },
{
    let bytes = long_frame_bytes(msg)?;
    let p = slice_subrange(bytes.as_slice(), 4, 14);
    let tc: u8 = p[0] >> 3u8;
    if (9 <= tc && tc <= 18) || (20 <= tc && tc <= 22) {
        read_airborne_position(p, tc)
    } else {
        Err(DecodeError::Range { typecode: tc, category: None, band: Band::AirbornePosition })
    }
}

/// What reading a payload as an operational status gives.
pub uninterp spec fn operation_status_of(p: Seq<u8>) -> Result<AircraftOperationStatus, DecodeError>;

#[verifier::external_type_specification]
#[verifier::external_body]
pub struct ExAircraftOperationStatus(AircraftOperationStatus);

/// Relies on rs1090's AircraftOperationStatus::from_bytes, read from the
/// category bits that follow the five typecode bits; deku's `Assertion`
/// errors keep their message, the others become `Malformed`.
#[verifier::external_body]
fn read_operation_status(p: &[u8]) -> (r: Result<AircraftOperationStatus, DecodeError>)
    ensures
        r == operation_status_of(p@),
{
    match AircraftOperationStatus::from_bytes((p, 5)).map(|(_, v)| v) {
        Ok(v) => Ok(v),
        Err(DekuError::Assertion(m)) => Err(DecodeError::Assertion(m.to_string())),
        Err(e) => Err(DecodeError::Malformed(e.to_string())),
    }
}

/// Decodes the payload of a frame as an operational status (BDS 6,5); its
/// typecode must be 31 and its category 0 or 1.
pub fn decode_bds65(msg: &str) -> (r: Result<AircraftOperationStatus, DecodeError>)
    ensures
        match payload_of(msg@) {
            None => r == Err::<AircraftOperationStatus, DecodeError>(DecodeError::Format),
            Some(p) => if in_operation_status_band(typecode_of(p), category_of(p)) {
                r == operation_status_of(p)
            } else {
                r == Err::<AircraftOperationStatus, DecodeError>(DecodeError::Range {
                    typecode: typecode_of(p),
                    category: Some(category_of(p)),
                    band: Band::OperationStatus,
                })
            },
        },
{
    let bytes = long_frame_bytes(msg)?;
    let p = slice_subrange(bytes.as_slice(), 4, 14);
    let tc: u8 = p[0] >> 3u8;
    let category: u8 = p[0] & 7u8;
    if tc == 31 && category < 2 {
        read_operation_status(p)
    } else {
        Err(DecodeError::Range { typecode: tc, category: Some(category), band: Band::OperationStatus })
    }
}

/// What reading a payload as a data-link capability report gives.
pub uninterp spec fn data_link_capability_of(p: Seq<u8>) -> Result<DataLinkCapability, DecodeError>;

#[verifier::external_type_specification]
#[verifier::external_body]
pub struct ExDataLinkCapability(DataLinkCapability);

/// Relies on rs1090's DataLinkCapability::from_bytes, read from
/// the first bit of the payload; deku's `Assertion` errors keep their message, the others
/// become `Malformed` with their text.
#[verifier::external_body]
fn read_data_link_capability(p: &[u8]) -> (r: Result<DataLinkCapability, DecodeError>)
    ensures
        r == data_link_capability_of(p@),
{
    match DataLinkCapability::from_bytes((p, 0)).map(|(_, v)| v) {
        Ok(v) => Ok(v),
        Err(DekuError::Assertion(m)) => Err(DecodeError::Assertion(m.to_string())),
        Err(e) => Err(DecodeError::Malformed(e.to_string())),
    }
}

/// Decodes the payload of a frame as a data-link capability report (BDS 1,0).
pub fn decode_bds10(msg: &str) -> (r: Result<DataLinkCapability, DecodeError>)
    ensures
        match payload_of(msg@) {
            None => r == Err::<DataLinkCapability, DecodeError>(DecodeError::Format),
            Some(p) => r == data_link_capability_of(p),
        },
{
    let bytes = long_frame_bytes(msg)?;
    let p = slice_subrange(bytes.as_slice(), 4, 14);
    read_data_link_capability(p)
}

/// What reading a payload as a common-usage GICB capability report gives.
pub uninterp spec fn common_usage_gicb_capability_report_of(p: Seq<u8>) -> Result<CommonUsageGICBCapabilityReport, DecodeError>;

#[verifier::external_type_specification]
#[verifier::external_body]
pub struct ExCommonUsageGICBCapabilityReport(CommonUsageGICBCapabilityReport);

/// Relies on rs1090's CommonUsageGICBCapabilityReport::from_bytes, read from
/// the first bit of the payload; deku's `Assertion` errors keep their message, the others
/// become `Malformed` with their text.
#[verifier::external_body]
fn read_common_usage_gicb_capability_report(p: &[u8]) -> (r: Result<CommonUsageGICBCapabilityReport, DecodeError>)
    ensures
        r == common_usage_gicb_capability_report_of(p@),
{
    match CommonUsageGICBCapabilityReport::from_bytes((p, 0)).map(|(_, v)| v) {
        Ok(v) => Ok(v),
        Err(DekuError::Assertion(m)) => Err(DecodeError::Assertion(m.to_string())),
        Err(e) => Err(DecodeError::Malformed(e.to_string())),
    }
}

/// Decodes the payload of a frame as a common-usage GICB capability report (BDS 1,7).
pub fn decode_bds17(msg: &str) -> (r: Result<CommonUsageGICBCapabilityReport, DecodeError>)
    ensures
        match payload_of(msg@) {
            None => r == Err::<CommonUsageGICBCapabilityReport, DecodeError>(DecodeError::Format),
            Some(p) => r == common_usage_gicb_capability_report_of(p),
        },
{
    let bytes = long_frame_bytes(msg)?;
    let p = slice_subrange(bytes.as_slice(), 4, 14);
    read_common_usage_gicb_capability_report(p)
}

/// What reading a payload as a GICB capability report, part 1 gives.
pub uninterp spec fn gicb_capability_report_part1_of(p: Seq<u8>) -> Result<GICBCapabilityReportPart1, DecodeError>;

#[verifier::external_type_specification]
#[verifier::external_body]
pub struct ExGICBCapabilityReportPart1(GICBCapabilityReportPart1);

/// Relies on rs1090's GICBCapabilityReportPart1::from_bytes, read from
/// the first bit of the payload; deku's `Assertion` errors keep their message, the others
/// become `Malformed` with their text.
#[verifier::external_body]
fn read_gicb_capability_report_part1(p: &[u8]) -> (r: Result<GICBCapabilityReportPart1, DecodeError>)
    ensures
        r == gicb_capability_report_part1_of(p@),
{
    match GICBCapabilityReportPart1::from_bytes((p, 0)).map(|(_, v)| v) {
        Ok(v) => Ok(v),
        Err(DekuError::Assertion(m)) => Err(DecodeError::Assertion(m.to_string())),
        Err(e) => Err(DecodeError::Malformed(e.to_string())),
    }
}

/// Decodes the payload of a frame as a GICB capability report, part 1 (BDS 1,8).
pub fn decode_bds18(msg: &str) -> (r: Result<GICBCapabilityReportPart1, DecodeError>)
    ensures
        match payload_of(msg@) {
            None => r == Err::<GICBCapabilityReportPart1, DecodeError>(DecodeError::Format),
            Some(p) => r == gicb_capability_report_part1_of(p),
        },
{
    let bytes = long_frame_bytes(msg)?;
    let p = slice_subrange(bytes.as_slice(), 4, 14);
    read_gicb_capability_report_part1(p)
}

/// What reading a payload as a GICB capability report, part 2 gives.
pub uninterp spec fn gicb_capability_report_part2_of(p: Seq<u8>) -> Result<GICBCapabilityReportPart2, DecodeError>;

#[verifier::external_type_specification]
#[verifier::external_body]
pub struct ExGICBCapabilityReportPart2(GICBCapabilityReportPart2);

/// Relies on rs1090's GICBCapabilityReportPart2::from_bytes, read from
/// the first bit of the payload; deku's `Assertion` errors keep their message, the others
/// become `Malformed` with their text.
#[verifier::external_body]
fn read_gicb_capability_report_part2(p: &[u8]) -> (r: Result<GICBCapabilityReportPart2, DecodeError>)
    ensures
        r == gicb_capability_report_part2_of(p@),
{
    match GICBCapabilityReportPart2::from_bytes((p, 0)).map(|(_, v)| v) {
        Ok(v) => Ok(v),
        Err(DekuError::Assertion(m)) => Err(DecodeError::Assertion(m.to_string())),
        Err(e) => Err(DecodeError::Malformed(e.to_string())),
    }
}

/// Decodes the payload of a frame as a GICB capability report, part 2 (BDS 1,9).
pub fn decode_bds19(msg: &str) -> (r: Result<GICBCapabilityReportPart2, DecodeError>)
    ensures
        match payload_of(msg@) {
            None => r == Err::<GICBCapabilityReportPart2, DecodeError>(DecodeError::Format),
            Some(p) => r == gicb_capability_report_part2_of(p),
        },
{
    let bytes = long_frame_bytes(msg)?;
    let p = slice_subrange(bytes.as_slice(), 4, 14);
    read_gicb_capability_report_part2(p)
}

/// What reading a payload as a aircraft identification gives.
pub uninterp spec fn aircraft_identification_of(p: Seq<u8>) -> Result<AircraftIdentification, DecodeError>;

#[verifier::external_type_specification]
#[verifier::external_body]
pub struct ExAircraftIdentification(AircraftIdentification);

/// Relies on rs1090's AircraftIdentification::from_bytes, read from
/// the first bit of the payload; deku's `Assertion` errors keep their message, the others
/// become `Malformed` with their text.
#[verifier::external_body]
fn read_aircraft_identification(p: &[u8]) -> (r: Result<AircraftIdentification, DecodeError>)
    ensures
        r == aircraft_identification_of(p@),
{
    match AircraftIdentification::from_bytes((p, 0)).map(|(_, v)| v) {
        Ok(v) => Ok(v),
        Err(DekuError::Assertion(m)) => Err(DecodeError::Assertion(m.to_string())),
        Err(e) => Err(DecodeError::Malformed(e.to_string())),
    }
}

/// Decodes the payload of a frame as a aircraft identification (BDS 2,0).
pub fn decode_bds20(msg: &str) -> (r: Result<AircraftIdentification, DecodeError>)
    ensures
        match payload_of(msg@) {
            None => r == Err::<AircraftIdentification, DecodeError>(DecodeError::Format),
            Some(p) => r == aircraft_identification_of(p),
        },
{
    let bytes = long_frame_bytes(msg)?;
    let p = slice_subrange(bytes.as_slice(), 4, 14);
    read_aircraft_identification(p)
}

/// What reading a payload as a aircraft and airline registration markings gives.
pub uninterp spec fn aircraft_and_airline_registration_markings_of(p: Seq<u8>) -> Result<AircraftAndAirlineRegistrationMarkings, DecodeError>;

#[verifier::external_type_specification]
#[verifier::external_body]
pub struct ExAircraftAndAirlineRegistrationMarkings(AircraftAndAirlineRegistrationMarkings);

/// Relies on rs1090's AircraftAndAirlineRegistrationMarkings::from_bytes, read from
/// the first bit of the payload; deku's `Assertion` errors keep their message, the others
/// become `Malformed` with their text.
#[verifier::external_body]
fn read_aircraft_and_airline_registration_markings(p: &[u8]) -> (r: Result<AircraftAndAirlineRegistrationMarkings, DecodeError>)
    ensures
        r == aircraft_and_airline_registration_markings_of(p@),
{
    match AircraftAndAirlineRegistrationMarkings::from_bytes((p, 0)).map(|(_, v)| v) {
        Ok(v) => Ok(v),
        Err(DekuError::Assertion(m)) => Err(DecodeError::Assertion(m.to_string())),
        Err(e) => Err(DecodeError::Malformed(e.to_string())),
    }
}

/// Decodes the payload of a frame as a aircraft and airline registration markings (BDS 2,1).
pub fn decode_bds21(msg: &str) -> (r: Result<AircraftAndAirlineRegistrationMarkings, DecodeError>)
    ensures
        match payload_of(msg@) {
            None => r == Err::<AircraftAndAirlineRegistrationMarkings, DecodeError>(DecodeError::Format),
            Some(p) => r == aircraft_and_airline_registration_markings_of(p),
        },
{
    let bytes = long_frame_bytes(msg)?;
    let p = slice_subrange(bytes.as_slice(), 4, 14);
    read_aircraft_and_airline_registration_markings(p)
}

/// What reading a payload as a ACAS active resolution advisory gives.
pub uninterp spec fn acas_resolution_advisory_of(p: Seq<u8>) -> Result<ACASResolutionAdvisory, DecodeError>;

#[verifier::external_type_specification]
#[verifier::external_body]
pub struct ExACASResolutionAdvisory(ACASResolutionAdvisory);

/// Relies on rs1090's ACASResolutionAdvisory::from_bytes, read from
/// the first bit of the payload; deku's `Assertion` errors keep their message, the others
/// become `Malformed` with their text.
#[verifier::external_body]
fn read_acas_resolution_advisory(p: &[u8]) -> (r: Result<ACASResolutionAdvisory, DecodeError>)
    ensures
        r == acas_resolution_advisory_of(p@),
{
    match ACASResolutionAdvisory::from_bytes((p, 0)).map(|(_, v)| v) {
        Ok(v) => Ok(v),
        Err(DekuError::Assertion(m)) => Err(DecodeError::Assertion(m.to_string())),
        Err(e) => Err(DecodeError::Malformed(e.to_string())),
    }
}

/// Decodes the payload of a frame as a ACAS active resolution advisory (BDS 3,0).
pub fn decode_bds30(msg: &str) -> (r: Result<ACASResolutionAdvisory, DecodeError>)
    ensures
        match payload_of(msg@) {
            None => r == Err::<ACASResolutionAdvisory, DecodeError>(DecodeError::Format),
            Some(p) => r == acas_resolution_advisory_of(p),
        },
{
    let bytes = long_frame_bytes(msg)?;
    let p = slice_subrange(bytes.as_slice(), 4, 14);
    read_acas_resolution_advisory(p)
}

/// What reading a payload as a selected vertical intention gives.
pub uninterp spec fn selected_vertical_intention_of(p: Seq<u8>) -> Result<SelectedVerticalIntention, DecodeError>;

#[verifier::external_type_specification]
#[verifier::external_body]
pub struct ExSelectedVerticalIntention(SelectedVerticalIntention);

/// Relies on rs1090's SelectedVerticalIntention::from_bytes, read from
/// the first bit of the payload; deku's `Assertion` errors keep their message, the others
/// become `Malformed` with their text.
#[verifier::external_body]
fn read_selected_vertical_intention(p: &[u8]) -> (r: Result<SelectedVerticalIntention, DecodeError>)
    ensures
        r == selected_vertical_intention_of(p@),
{
    match SelectedVerticalIntention::from_bytes((p, 0)).map(|(_, v)| v) {
        Ok(v) => Ok(v),
        Err(DekuError::Assertion(m)) => Err(DecodeError::Assertion(m.to_string())),
        Err(e) => Err(DecodeError::Malformed(e.to_string())),
    }
}

/// Decodes the payload of a frame as a selected vertical intention (BDS 4,0).
pub fn decode_bds40(msg: &str) -> (r: Result<SelectedVerticalIntention, DecodeError>)
    ensures
        match payload_of(msg@) {
            None => r == Err::<SelectedVerticalIntention, DecodeError>(DecodeError::Format),
            Some(p) => r == selected_vertical_intention_of(p),
        },
{
    let bytes = long_frame_bytes(msg)?;
    let p = slice_subrange(bytes.as_slice(), 4, 14);
    read_selected_vertical_intention(p)
}

/// What reading a payload as a meteorological routine air report gives.
pub uninterp spec fn meteorological_routine_air_report_of(p: Seq<u8>) -> Result<MeteorologicalRoutineAirReport, DecodeError>;

#[verifier::external_type_specification]
#[verifier::external_body]
pub struct ExMeteorologicalRoutineAirReport(MeteorologicalRoutineAirReport);

/// Relies on rs1090's MeteorologicalRoutineAirReport::from_bytes, read from
/// the first bit of the payload; deku's `Assertion` errors keep their message, the others
/// become `Malformed` with their text.
#[verifier::external_body]
fn read_meteorological_routine_air_report(p: &[u8]) -> (r: Result<MeteorologicalRoutineAirReport, DecodeError>)
    ensures
        r == meteorological_routine_air_report_of(p@),
{
    match MeteorologicalRoutineAirReport::from_bytes((p, 0)).map(|(_, v)| v) {
        Ok(v) => Ok(v),
        Err(DekuError::Assertion(m)) => Err(DecodeError::Assertion(m.to_string())),
        Err(e) => Err(DecodeError::Malformed(e.to_string())),
    }
}

/// Decodes the payload of a frame as a meteorological routine air report (BDS 4,4).
pub fn decode_bds44(msg: &str) -> (r: Result<MeteorologicalRoutineAirReport, DecodeError>)
    ensures
        match payload_of(msg@) {
            None => r == Err::<MeteorologicalRoutineAirReport, DecodeError>(DecodeError::Format),
            Some(p) => r == meteorological_routine_air_report_of(p),
        },
{
    let bytes = long_frame_bytes(msg)?;
    let p = slice_subrange(bytes.as_slice(), 4, 14);
    read_meteorological_routine_air_report(p)
}

/// What reading a payload as a meteorological hazard report gives.
pub uninterp spec fn meteorological_hazard_report_of(p: Seq<u8>) -> Result<MeteorologicalHazardReport, DecodeError>;

#[verifier::external_type_specification]
#[verifier::external_body]
pub struct ExMeteorologicalHazardReport(MeteorologicalHazardReport);

/// Relies on rs1090's MeteorologicalHazardReport::from_bytes, read from
/// the first bit of the payload; deku's `Assertion` errors keep their message, the others
/// become `Malformed` with their text.
#[verifier::external_body]
fn read_meteorological_hazard_report(p: &[u8]) -> (r: Result<MeteorologicalHazardReport, DecodeError>)
    ensures
        r == meteorological_hazard_report_of(p@),
{
    match MeteorologicalHazardReport::from_bytes((p, 0)).map(|(_, v)| v) {
        Ok(v) => Ok(v),
        Err(DekuError::Assertion(m)) => Err(DecodeError::Assertion(m.to_string())),
        Err(e) => Err(DecodeError::Malformed(e.to_string())),
    }
}

/// Decodes the payload of a frame as a meteorological hazard report (BDS 4,5).
pub fn decode_bds45(msg: &str) -> (r: Result<MeteorologicalHazardReport, DecodeError>)
    ensures
        match payload_of(msg@) {
            None => r == Err::<MeteorologicalHazardReport, DecodeError>(DecodeError::Format),
            Some(p) => r == meteorological_hazard_report_of(p),
        },
{
    let bytes = long_frame_bytes(msg)?;
    let p = slice_subrange(bytes.as_slice(), 4, 14);
    read_meteorological_hazard_report(p)
}

/// What reading a payload as a track and turn report gives.
pub uninterp spec fn track_and_turn_report_of(p: Seq<u8>) -> Result<TrackAndTurnReport, DecodeError>;

#[verifier::external_type_specification]
#[verifier::external_body]
pub struct ExTrackAndTurnReport(TrackAndTurnReport);

/// Relies on rs1090's TrackAndTurnReport::from_bytes, read from
/// the first bit of the payload; deku's `Assertion` errors keep their message, the others
/// become `Malformed` with their text.
#[verifier::external_body]
fn read_track_and_turn_report(p: &[u8]) -> (r: Result<TrackAndTurnReport, DecodeError>)
    ensures
        r == track_and_turn_report_of(p@),
{
    match TrackAndTurnReport::from_bytes((p, 0)).map(|(_, v)| v) {
        Ok(v) => Ok(v),
        Err(DekuError::Assertion(m)) => Err(DecodeError::Assertion(m.to_string())),
        Err(e) => Err(DecodeError::Malformed(e.to_string())),
    }
}

/// Decodes the payload of a frame as a track and turn report (BDS 5,0).
pub fn decode_bds50(msg: &str) -> (r: Result<TrackAndTurnReport, DecodeError>)
    ensures
        match payload_of(msg@) {
            None => r == Err::<TrackAndTurnReport, DecodeError>(DecodeError::Format),
            Some(p) => r == track_and_turn_report_of(p),
        },
{
    let bytes = long_frame_bytes(msg)?;
    let p = slice_subrange(bytes.as_slice(), 4, 14);
    read_track_and_turn_report(p)
}

/// What reading a payload as a heading and speed report gives.
pub uninterp spec fn heading_and_speed_report_of(p: Seq<u8>) -> Result<HeadingAndSpeedReport, DecodeError>;

#[verifier::external_type_specification]
#[verifier::external_body]
pub struct ExHeadingAndSpeedReport(HeadingAndSpeedReport);

/// Relies on rs1090's HeadingAndSpeedReport::from_bytes, read from
/// the first bit of the payload; deku's `Assertion` errors keep their message, the others
/// become `Malformed` with their text.
#[verifier::external_body]
fn read_heading_and_speed_report(p: &[u8]) -> (r: Result<HeadingAndSpeedReport, DecodeError>)
    ensures
        r == heading_and_speed_report_of(p@),
{
    match HeadingAndSpeedReport::from_bytes((p, 0)).map(|(_, v)| v) {
        Ok(v) => Ok(v),
        Err(DekuError::Assertion(m)) => Err(DecodeError::Assertion(m.to_string())),
        Err(e) => Err(DecodeError::Malformed(e.to_string())),
    }
}

/// Decodes the payload of a frame as a heading and speed report (BDS 6,0).
pub fn decode_bds60(msg: &str) -> (r: Result<HeadingAndSpeedReport, DecodeError>)
    ensures
        match payload_of(msg@) {
            None => r == Err::<HeadingAndSpeedReport, DecodeError>(DecodeError::Format),
            Some(p) => r == heading_and_speed_report_of(p),
        },
{
    let bytes = long_frame_bytes(msg)?;
    let p = slice_subrange(bytes.as_slice(), 4, 14);
    read_heading_and_speed_report(p)
}

/// Text that is not hex, or whose bytes are not a 7- or 14-byte frame, is a
/// format error for the lenient decoder and for every strict decoder, and a
/// batch drops it; a short frame is a format error for every strict decoder.
/// No field of such text is ever read.
pub proof fn lemma_bad_text_refused(s: Seq<char>)
    requires
        !is_hex_text(s) || s.len() != 28,
    ensures
        payload_of(s) is None,
        !is_hex_text(s) || !is_frame_length(s.len() as int / 2) ==> {
            &&& frame_of(s) is None
            &&& lenient_decode(s) == Err::<Option<rs1090::decode::Message>, DecodeError>(DecodeError::Format)
            &&& decoded_frames(seq![s]) == Seq::<rs1090::decode::Message>::empty()
        },
{
    let one = seq![s];
    assert(one.drop_last() == Seq::<Seq<char>>::empty());
    assert(one.last() == s);
    assert(decoded_frames(one.drop_last()) == Seq::<rs1090::decode::Message>::empty());
    if !is_hex_text(s) || !is_frame_length(s.len() as int / 2) {
        assert(decoded_frames(one) == decoded_frames(one.drop_last()));
    }
}

/// Every strict decoder's result is fixed by the payload of its text, error
/// included: the same frame, in either case of its hex digits, decodes to the
/// same result every time.
pub proof fn lemma_strict_decode_repeatable(a: Seq<char>, b: Seq<char>)
    requires
        ascii_lower_text(a) == ascii_lower_text(b),
    ensures
        payload_of(a) == payload_of(b),
{
    lemma_frame_of_ignores_case(a, b);
}

} // verus!
