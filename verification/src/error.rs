//! The status code that every request to a controller comes back with.

use vstd::prelude::*;

verus! {

/// The status code that a request comes back with.
#[allow(non_camel_case_types)]
#[derive(Debug, Copy, Clone, PartialEq, Eq, Structural)]
pub enum ErrorCode {
    /// The request went through.
    OK,
    CAN_MSG_STALE,
    TxFailed,
    InvalidParamValue,
    RxTimeout,
    TxTimeout,
    UnexpectedArbId,
    BufferFull,
    CAN_OVERFLOW,
    SensorNotPresent,
    FirmwareTooOld,
    CouldNotChangePeriod,
    GeneralError,
    SigNotUpdated,
    NotAllPIDValuesUpdated,
    GEN_PORT_ERROR,
    PORT_MODULE_TYPE_MISMATCH,
    GEN_MODULE_ERROR,
    MODULE_NOT_INIT_SET_ERROR,
    MODULE_NOT_INIT_GET_ERROR,
    WheelRadiusTooSmall,
    TicksPerRevZero,
    DistanceBetweenWheelsTooSmall,
    GainsAreNotSet,
    IncompatibleMode,
    InvalidHandle,
    FeatureRequiresHigherFirm,
    TalonFeatureRequiresHigherFirm,
    PulseWidthSensorNotPresent,
    GeneralWarning,
    FeatureNotSupported,
    NotImplemented,
    FirmVersionCouldNotBeRetrieved,
    FeaturesNotAvailableYet,
    ControlModeNotValid,
    ControlModeNotSupportedYet,
    AuxiliaryPIDNotSupportedYet,
    RemoteSensorsNotSupportedYet,
    MotProfFirmThreshold,
    MotProfFirmThreshold2,
}

impl ErrorCode {
    /// The number that the controller knows the value by.
    pub open spec fn code_value(self) -> i32 {
        match self {
            ErrorCode::OK => 0,
            ErrorCode::CAN_MSG_STALE => 1,
            ErrorCode::TxFailed => -1i32,
            ErrorCode::InvalidParamValue => -2i32,
            ErrorCode::RxTimeout => -3i32,
            ErrorCode::TxTimeout => -4i32,
            ErrorCode::UnexpectedArbId => -5i32,
            ErrorCode::BufferFull => 6,
            ErrorCode::CAN_OVERFLOW => -6i32,
            ErrorCode::SensorNotPresent => -7i32,
            ErrorCode::FirmwareTooOld => -8i32,
            ErrorCode::CouldNotChangePeriod => -9i32,
            ErrorCode::GeneralError => -100i32,
            ErrorCode::SigNotUpdated => -200i32,
            ErrorCode::NotAllPIDValuesUpdated => -201i32,
            ErrorCode::GEN_PORT_ERROR => -300i32,
            ErrorCode::PORT_MODULE_TYPE_MISMATCH => -301i32,
            ErrorCode::GEN_MODULE_ERROR => -400i32,
            ErrorCode::MODULE_NOT_INIT_SET_ERROR => -401i32,
            ErrorCode::MODULE_NOT_INIT_GET_ERROR => -402i32,
            ErrorCode::WheelRadiusTooSmall => -500i32,
            ErrorCode::TicksPerRevZero => -501i32,
            ErrorCode::DistanceBetweenWheelsTooSmall => -502i32,
            ErrorCode::GainsAreNotSet => -503i32,
            ErrorCode::IncompatibleMode => -600i32,
            ErrorCode::InvalidHandle => -601i32,
            ErrorCode::FeatureRequiresHigherFirm => -700i32,
            ErrorCode::TalonFeatureRequiresHigherFirm => -701i32,
            ErrorCode::PulseWidthSensorNotPresent => 10,
            ErrorCode::GeneralWarning => 100,
            ErrorCode::FeatureNotSupported => 101,
            ErrorCode::NotImplemented => 102,
            ErrorCode::FirmVersionCouldNotBeRetrieved => 103,
            ErrorCode::FeaturesNotAvailableYet => 104,
            ErrorCode::ControlModeNotValid => 105,
            ErrorCode::ControlModeNotSupportedYet => 106,
            ErrorCode::AuxiliaryPIDNotSupportedYet => 107,
            ErrorCode::RemoteSensorsNotSupportedYet => 108,
            ErrorCode::MotProfFirmThreshold => 109,
            ErrorCode::MotProfFirmThreshold2 => 110,
        }
    }

    /// The number that the controller knows the value by.
    pub fn code(self) -> (r: i32)
        ensures
            r == self.code_value(),
    {
        match self {
            ErrorCode::OK => 0,
            ErrorCode::CAN_MSG_STALE => 1,
            ErrorCode::TxFailed => -1i32,
            ErrorCode::InvalidParamValue => -2i32,
            ErrorCode::RxTimeout => -3i32,
            ErrorCode::TxTimeout => -4i32,
            ErrorCode::UnexpectedArbId => -5i32,
            ErrorCode::BufferFull => 6,
            ErrorCode::CAN_OVERFLOW => -6i32,
            ErrorCode::SensorNotPresent => -7i32,
            ErrorCode::FirmwareTooOld => -8i32,
            ErrorCode::CouldNotChangePeriod => -9i32,
            ErrorCode::GeneralError => -100i32,
            ErrorCode::SigNotUpdated => -200i32,
            ErrorCode::NotAllPIDValuesUpdated => -201i32,
            ErrorCode::GEN_PORT_ERROR => -300i32,
            ErrorCode::PORT_MODULE_TYPE_MISMATCH => -301i32,
            ErrorCode::GEN_MODULE_ERROR => -400i32,
            ErrorCode::MODULE_NOT_INIT_SET_ERROR => -401i32,
            ErrorCode::MODULE_NOT_INIT_GET_ERROR => -402i32,
            ErrorCode::WheelRadiusTooSmall => -500i32,
            ErrorCode::TicksPerRevZero => -501i32,
            ErrorCode::DistanceBetweenWheelsTooSmall => -502i32,
            ErrorCode::GainsAreNotSet => -503i32,
            ErrorCode::IncompatibleMode => -600i32,
            ErrorCode::InvalidHandle => -601i32,
            ErrorCode::FeatureRequiresHigherFirm => -700i32,
            ErrorCode::TalonFeatureRequiresHigherFirm => -701i32,
            ErrorCode::PulseWidthSensorNotPresent => 10,
            ErrorCode::GeneralWarning => 100,
            ErrorCode::FeatureNotSupported => 101,
            ErrorCode::NotImplemented => 102,
            ErrorCode::FirmVersionCouldNotBeRetrieved => 103,
            ErrorCode::FeaturesNotAvailableYet => 104,
            ErrorCode::ControlModeNotValid => 105,
            ErrorCode::ControlModeNotSupportedYet => 106,
            ErrorCode::AuxiliaryPIDNotSupportedYet => 107,
            ErrorCode::RemoteSensorsNotSupportedYet => 108,
            ErrorCode::MotProfFirmThreshold => 109,
            ErrorCode::MotProfFirmThreshold2 => 110,
        }
    }

    /// The value that the controller knows by `code`, if there is one.
    pub open spec fn from_code_value(code: i32) -> Option<ErrorCode> {
        if code == 0 {
            Some(ErrorCode::OK)
        } else if code == 1 {
            Some(ErrorCode::CAN_MSG_STALE)
        } else if code == -1 {
            Some(ErrorCode::TxFailed)
        } else if code == -2 {
            Some(ErrorCode::InvalidParamValue)
        } else if code == -3 {
            Some(ErrorCode::RxTimeout)
        } else if code == -4 {
            Some(ErrorCode::TxTimeout)
        } else if code == -5 {
            Some(ErrorCode::UnexpectedArbId)
        } else if code == 6 {
            Some(ErrorCode::BufferFull)
        } else if code == -6 {
            Some(ErrorCode::CAN_OVERFLOW)
        } else if code == -7 {
            Some(ErrorCode::SensorNotPresent)
        } else if code == -8 {
            Some(ErrorCode::FirmwareTooOld)
        } else if code == -9 {
            Some(ErrorCode::CouldNotChangePeriod)
        } else if code == -100 {
            Some(ErrorCode::GeneralError)
        } else if code == -200 {
            Some(ErrorCode::SigNotUpdated)
        } else if code == -201 {
            Some(ErrorCode::NotAllPIDValuesUpdated)
        } else if code == -300 {
            Some(ErrorCode::GEN_PORT_ERROR)
        } else if code == -301 {
            Some(ErrorCode::PORT_MODULE_TYPE_MISMATCH)
        } else if code == -400 {
            Some(ErrorCode::GEN_MODULE_ERROR)
        } else if code == -401 {
            Some(ErrorCode::MODULE_NOT_INIT_SET_ERROR)
        } else if code == -402 {
            Some(ErrorCode::MODULE_NOT_INIT_GET_ERROR)
        } else if code == -500 {
            Some(ErrorCode::WheelRadiusTooSmall)
        } else if code == -501 {
            Some(ErrorCode::TicksPerRevZero)
        } else if code == -502 {
            Some(ErrorCode::DistanceBetweenWheelsTooSmall)
        } else if code == -503 {
            Some(ErrorCode::GainsAreNotSet)
        } else if code == -600 {
            Some(ErrorCode::IncompatibleMode)
        } else if code == -601 {
            Some(ErrorCode::InvalidHandle)
        } else if code == -700 {
            Some(ErrorCode::FeatureRequiresHigherFirm)
        } else if code == -701 {
            Some(ErrorCode::TalonFeatureRequiresHigherFirm)
        } else if code == 10 {
            Some(ErrorCode::PulseWidthSensorNotPresent)
        } else if code == 100 {
            Some(ErrorCode::GeneralWarning)
        } else if code == 101 {
            Some(ErrorCode::FeatureNotSupported)
        } else if code == 102 {
            Some(ErrorCode::NotImplemented)
        } else if code == 103 {
            Some(ErrorCode::FirmVersionCouldNotBeRetrieved)
        } else if code == 104 {
            Some(ErrorCode::FeaturesNotAvailableYet)
        } else if code == 105 {
            Some(ErrorCode::ControlModeNotValid)
        } else if code == 106 {
            Some(ErrorCode::ControlModeNotSupportedYet)
        } else if code == 107 {
            Some(ErrorCode::AuxiliaryPIDNotSupportedYet)
        } else if code == 108 {
            Some(ErrorCode::RemoteSensorsNotSupportedYet)
        } else if code == 109 {
            Some(ErrorCode::MotProfFirmThreshold)
        } else if code == 110 {
            Some(ErrorCode::MotProfFirmThreshold2)
        } else {
            None
        }
    }

    /// The value that the controller knows by `code`, if there is one.
    pub fn from_code(code: i32) -> (r: Option<ErrorCode>)
        ensures
            r == Self::from_code_value(code),
    {
        if code == 0 {
            Some(ErrorCode::OK)
        } else if code == 1 {
            Some(ErrorCode::CAN_MSG_STALE)
        } else if code == -1 {
            Some(ErrorCode::TxFailed)
        } else if code == -2 {
            Some(ErrorCode::InvalidParamValue)
        } else if code == -3 {
            Some(ErrorCode::RxTimeout)
        } else if code == -4 {
            Some(ErrorCode::TxTimeout)
        } else if code == -5 {
            Some(ErrorCode::UnexpectedArbId)
        } else if code == 6 {
            Some(ErrorCode::BufferFull)
        } else if code == -6 {
            Some(ErrorCode::CAN_OVERFLOW)
        } else if code == -7 {
            Some(ErrorCode::SensorNotPresent)
        } else if code == -8 {
            Some(ErrorCode::FirmwareTooOld)
        } else if code == -9 {
            Some(ErrorCode::CouldNotChangePeriod)
        } else if code == -100 {
            Some(ErrorCode::GeneralError)
        } else if code == -200 {
            Some(ErrorCode::SigNotUpdated)
        } else if code == -201 {
            Some(ErrorCode::NotAllPIDValuesUpdated)
        } else if code == -300 {
            Some(ErrorCode::GEN_PORT_ERROR)
        } else if code == -301 {
            Some(ErrorCode::PORT_MODULE_TYPE_MISMATCH)
        } else if code == -400 {
            Some(ErrorCode::GEN_MODULE_ERROR)
        } else if code == -401 {
            Some(ErrorCode::MODULE_NOT_INIT_SET_ERROR)
        } else if code == -402 {
            Some(ErrorCode::MODULE_NOT_INIT_GET_ERROR)
        } else if code == -500 {
            Some(ErrorCode::WheelRadiusTooSmall)
        } else if code == -501 {
            Some(ErrorCode::TicksPerRevZero)
        } else if code == -502 {
            Some(ErrorCode::DistanceBetweenWheelsTooSmall)
        } else if code == -503 {
            Some(ErrorCode::GainsAreNotSet)
        } else if code == -600 {
            Some(ErrorCode::IncompatibleMode)
        } else if code == -601 {
            Some(ErrorCode::InvalidHandle)
        } else if code == -700 {
            Some(ErrorCode::FeatureRequiresHigherFirm)
        } else if code == -701 {
            Some(ErrorCode::TalonFeatureRequiresHigherFirm)
        } else if code == 10 {
            Some(ErrorCode::PulseWidthSensorNotPresent)
        } else if code == 100 {
            Some(ErrorCode::GeneralWarning)
        } else if code == 101 {
            Some(ErrorCode::FeatureNotSupported)
        } else if code == 102 {
            Some(ErrorCode::NotImplemented)
        } else if code == 103 {
            Some(ErrorCode::FirmVersionCouldNotBeRetrieved)
        } else if code == 104 {
            Some(ErrorCode::FeaturesNotAvailableYet)
        } else if code == 105 {
            Some(ErrorCode::ControlModeNotValid)
        } else if code == 106 {
            Some(ErrorCode::ControlModeNotSupportedYet)
        } else if code == 107 {
            Some(ErrorCode::AuxiliaryPIDNotSupportedYet)
        } else if code == 108 {
            Some(ErrorCode::RemoteSensorsNotSupportedYet)
        } else if code == 109 {
            Some(ErrorCode::MotProfFirmThreshold)
        } else if code == 110 {
            Some(ErrorCode::MotProfFirmThreshold2)
        } else {
            None
        }
    }

    /// The code behind a number, a number that names no code being taken for
    /// a general error.
    pub open spec fn from_number_value(number: i32) -> ErrorCode {
        match Self::from_code_value(number) {
            Some(code) => code,
            None => ErrorCode::GeneralError,
        }
    }

    /// The code behind a number that came back from a request. A number that
    /// names no code is taken for a general error, so that every answer has a
    /// code.
    pub fn from_number(number: i32) -> (r: ErrorCode)
        ensures
            r == Self::from_number_value(number),
            r.is_ok_value() == (number == 0),
    {
        match Self::from_code(number) {
            Some(code) => code,
            None => ErrorCode::GeneralError,
        }
    }

    pub open spec fn is_ok_value(self) -> bool {
        self == ErrorCode::OK
    }

    /// Whether the request went through.
    pub fn is_ok(self) -> (r: bool)
        ensures
            r == self.is_ok_value(),
    {
        self == ErrorCode::OK
    }

    /// Whether the request failed.
    pub fn is_err(self) -> (r: bool)
        ensures
            r == !self.is_ok_value(),
    {
        self != ErrorCode::OK
    }

    /// `Ok` for the code of success, and the code as an error otherwise.
    pub fn into_res(self) -> (r: Result<(), ErrorCode>)
        ensures
            self.is_ok_value() ==> r == Ok::<(), ErrorCode>(()),
            !self.is_ok_value() ==> r == Err::<(), ErrorCode>(self),
    {
        if self == ErrorCode::OK {
            Ok(())
        } else {
            Err(self)
        }
    }
}

/// What a query gives its caller: the value read, if the request went through,
/// and otherwise the code alone. No value is handed on beside an error.
pub fn checked<T>(code: ErrorCode, value: T) -> (r: Result<T, ErrorCode>)
    ensures
        code.is_ok_value() ==> r == Ok::<T, ErrorCode>(value),
        !code.is_ok_value() ==> r == Err::<T, ErrorCode>(code),
{
    if code.is_ok() {
        Ok(value)
    } else {
        Err(code)
    }
}

/// Every status code is found again from its number, so no two codes share a
/// number; the number of success is 0.
pub proof fn lemma_code_round_trip(code: ErrorCode)
    ensures
        ErrorCode::from_code_value(code.code_value()) == Some(code),
        (code.code_value() == 0) == code.is_ok_value(),
{
}

} // verus!
