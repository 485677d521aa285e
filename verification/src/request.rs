//! Requests: what a controller is asked, as values.
//!
//! Every operation on a controller is one request, which the transport carries
//! to the device and which comes back with a status code, and for a question
//! with the value asked for. A request holds its arguments as they were given.
//! Each enumeration knows the number that the device knows its values by, and
//! gives it through `code`.
//!
//! A setter that is named `config_..` takes a timeout in milliseconds. With a
//! timeout of 0 the request is sent and nothing is waited for; with a timeout
//! above 0 the caller is held until the device confirms the value or the time
//! is up, which comes back as an error.

use vstd::prelude::*;
use crate::demand::Demand;
use crate::control::Command;
use crate::motion::TrajectoryPoint;

verus! {

/// What the output does at neutral throttle.
#[derive(Debug, Copy, Clone, PartialEq, Eq, Structural)]
pub enum NeutralMode {
    /// As stored in the controller.
    EEPROMSetting,
    Coast,
    Brake,
}

impl NeutralMode {
    /// The number that the controller knows the value by.
    pub open spec fn code_value(self) -> i32 {
        match self {
            NeutralMode::EEPROMSetting => 0,
            NeutralMode::Coast => 1,
            NeutralMode::Brake => 2,
        }
    }

    /// The number that the controller knows the value by.
    pub fn code(self) -> (r: i32)
        ensures
            r == self.code_value(),
    {
        match self {
            NeutralMode::EEPROMSetting => 0,
            NeutralMode::Coast => 1,
            NeutralMode::Brake => 2,
        }
    }
}

/// A feedback device of a Talon SRX.
#[derive(Debug, Copy, Clone, PartialEq, Eq, Structural)]
pub enum FeedbackDevice {
    /// No device is selected.
    Unselected,
    QuadEncoder,
    Analog,
    Tachometer,
    PulseWidthEncodedPosition,
    SensorSum,
    SensorDifference,
    RemoteSensor0,
    RemoteSensor1,
    SoftwareEmulatedSensor,
}

impl FeedbackDevice {
    /// The number that the controller knows the value by.
    pub open spec fn code_value(self) -> i32 {
        match self {
            FeedbackDevice::Unselected => -1i32,
            FeedbackDevice::QuadEncoder => 0,
            FeedbackDevice::Analog => 2,
            FeedbackDevice::Tachometer => 4,
            FeedbackDevice::PulseWidthEncodedPosition => 8,
            FeedbackDevice::SensorSum => 9,
            FeedbackDevice::SensorDifference => 10,
            FeedbackDevice::RemoteSensor0 => 11,
            FeedbackDevice::RemoteSensor1 => 12,
            FeedbackDevice::SoftwareEmulatedSensor => 15,
        }
    }

    /// The number that the controller knows the value by.
    pub fn code(self) -> (r: i32)
        ensures
            r == self.code_value(),
    {
        match self {
            FeedbackDevice::Unselected => -1i32,
            FeedbackDevice::QuadEncoder => 0,
            FeedbackDevice::Analog => 2,
            FeedbackDevice::Tachometer => 4,
            FeedbackDevice::PulseWidthEncodedPosition => 8,
            FeedbackDevice::SensorSum => 9,
            FeedbackDevice::SensorDifference => 10,
            FeedbackDevice::RemoteSensor0 => 11,
            FeedbackDevice::RemoteSensor1 => 12,
            FeedbackDevice::SoftwareEmulatedSensor => 15,
        }
    }
}

/// A feedback device that either family can select: one that is not wired to
/// the controller itself.
#[derive(Debug, Copy, Clone, PartialEq, Eq, Structural)]
pub enum RemoteFeedbackDevice {
    /// No device is selected.
    Unselected,
    SensorSum,
    SensorDifference,
    RemoteSensor0,
    RemoteSensor1,
    SoftwareEmulatedSensor,
}

impl RemoteFeedbackDevice {
    /// The number that the controller knows the value by.
    pub open spec fn code_value(self) -> i32 {
        match self {
            RemoteFeedbackDevice::Unselected => -1i32,
            RemoteFeedbackDevice::SensorSum => 9,
            RemoteFeedbackDevice::SensorDifference => 10,
            RemoteFeedbackDevice::RemoteSensor0 => 11,
            RemoteFeedbackDevice::RemoteSensor1 => 12,
            RemoteFeedbackDevice::SoftwareEmulatedSensor => 15,
        }
    }

    /// The number that the controller knows the value by.
    pub fn code(self) -> (r: i32)
        ensures
            r == self.code_value(),
    {
        match self {
            RemoteFeedbackDevice::Unselected => -1i32,
            RemoteFeedbackDevice::SensorSum => 9,
            RemoteFeedbackDevice::SensorDifference => 10,
            RemoteFeedbackDevice::RemoteSensor0 => 11,
            RemoteFeedbackDevice::RemoteSensor1 => 12,
            RemoteFeedbackDevice::SoftwareEmulatedSensor => 15,
        }
    }
}

/// The device and signal behind a remote sensor.
#[allow(non_camel_case_types)]
#[derive(Debug, Copy, Clone, PartialEq, Eq, Structural)]
pub enum RemoteSensorSource {
    Off,
    TalonSRX_SelectedSensor,
    Pigeon_Yaw,
    Pigeon_Pitch,
    Pigeon_Roll,
    CANifier_Quadrature,
    CANifier_PWMInput0,
    CANifier_PWMInput1,
    CANifier_PWMInput2,
    CANifier_PWMInput3,
    GadgeteerPigeon_Yaw,
    GadgeteerPigeon_Pitch,
    GadgeteerPigeon_Roll,
}

impl RemoteSensorSource {
    /// The number that the controller knows the value by.
    pub open spec fn code_value(self) -> i32 {
        match self {
            RemoteSensorSource::Off => 0,
            RemoteSensorSource::TalonSRX_SelectedSensor => 1,
            RemoteSensorSource::Pigeon_Yaw => 2,
            RemoteSensorSource::Pigeon_Pitch => 3,
            RemoteSensorSource::Pigeon_Roll => 4,
            RemoteSensorSource::CANifier_Quadrature => 5,
            RemoteSensorSource::CANifier_PWMInput0 => 6,
            RemoteSensorSource::CANifier_PWMInput1 => 7,
            RemoteSensorSource::CANifier_PWMInput2 => 8,
            RemoteSensorSource::CANifier_PWMInput3 => 9,
            RemoteSensorSource::GadgeteerPigeon_Yaw => 10,
            RemoteSensorSource::GadgeteerPigeon_Pitch => 11,
            RemoteSensorSource::GadgeteerPigeon_Roll => 12,
        }
    }

    /// The number that the controller knows the value by.
    pub fn code(self) -> (r: i32)
        ensures
            r == self.code_value(),
    {
        match self {
            RemoteSensorSource::Off => 0,
            RemoteSensorSource::TalonSRX_SelectedSensor => 1,
            RemoteSensorSource::Pigeon_Yaw => 2,
            RemoteSensorSource::Pigeon_Pitch => 3,
            RemoteSensorSource::Pigeon_Roll => 4,
            RemoteSensorSource::CANifier_Quadrature => 5,
            RemoteSensorSource::CANifier_PWMInput0 => 6,
            RemoteSensorSource::CANifier_PWMInput1 => 7,
            RemoteSensorSource::CANifier_PWMInput2 => 8,
            RemoteSensorSource::CANifier_PWMInput3 => 9,
            RemoteSensorSource::GadgeteerPigeon_Yaw => 10,
            RemoteSensorSource::GadgeteerPigeon_Pitch => 11,
            RemoteSensorSource::GadgeteerPigeon_Roll => 12,
        }
    }
}

/// One of the four terms of the sensor sum and the sensor difference.
#[derive(Debug, Copy, Clone, PartialEq, Eq, Structural)]
pub enum SensorTerm {
    Sum0,
    Sum1,
    Diff0,
    Diff1,
}

impl SensorTerm {
    /// The number that the controller knows the value by.
    pub open spec fn code_value(self) -> i32 {
        match self {
            SensorTerm::Sum0 => 0,
            SensorTerm::Sum1 => 1,
            SensorTerm::Diff0 => 2,
            SensorTerm::Diff1 => 3,
        }
    }

    /// The number that the controller knows the value by.
    pub fn code(self) -> (r: i32)
        ensures
            r == self.code_value(),
    {
        match self {
            SensorTerm::Sum0 => 0,
            SensorTerm::Sum1 => 1,
            SensorTerm::Diff0 => 2,
            SensorTerm::Diff1 => 3,
        }
    }
}

/// A control frame that either family sends.
#[allow(non_camel_case_types)]
#[derive(Debug, Copy, Clone, PartialEq, Eq, Structural)]
pub enum ControlFrame {
    Control_3_General,
    Control_4_Advanced,
    Control_6_MotProfAddTrajPoint,
}

impl ControlFrame {
    /// The number that the controller knows the value by.
    pub open spec fn code_value(self) -> i32 {
        match self {
            ControlFrame::Control_3_General => 262272,
            ControlFrame::Control_4_Advanced => 262336,
            ControlFrame::Control_6_MotProfAddTrajPoint => 262464,
        }
    }

    /// The number that the controller knows the value by.
    pub fn code(self) -> (r: i32)
        ensures
            r == self.code_value(),
    {
        match self {
            ControlFrame::Control_3_General => 262272,
            ControlFrame::Control_4_Advanced => 262336,
            ControlFrame::Control_6_MotProfAddTrajPoint => 262464,
        }
    }
}

/// A control frame of a Talon SRX.
#[allow(non_camel_case_types)]
#[derive(Debug, Copy, Clone, PartialEq, Eq, Structural)]
pub enum ControlFrameEnhanced {
    Control_3_General,
    Control_4_Advanced,
    Control_5_FeedbackOutputOverride,
    Control_6_MotProfAddTrajPoint,
}

impl ControlFrameEnhanced {
    /// The number that the controller knows the value by.
    pub open spec fn code_value(self) -> i32 {
        match self {
            ControlFrameEnhanced::Control_3_General => 262272,
            ControlFrameEnhanced::Control_4_Advanced => 262336,
            ControlFrameEnhanced::Control_5_FeedbackOutputOverride => 262400,
            ControlFrameEnhanced::Control_6_MotProfAddTrajPoint => 262464,
        }
    }

    /// The number that the controller knows the value by.
    pub fn code(self) -> (r: i32)
        ensures
            r == self.code_value(),
    {
        match self {
            ControlFrameEnhanced::Control_3_General => 262272,
            ControlFrameEnhanced::Control_4_Advanced => 262336,
            ControlFrameEnhanced::Control_5_FeedbackOutputOverride => 262400,
            ControlFrameEnhanced::Control_6_MotProfAddTrajPoint => 262464,
        }
    }
}

/// A status frame that either family sends.
#[allow(non_camel_case_types)]
#[derive(Debug, Copy, Clone, PartialEq, Eq, Structural)]
pub enum StatusFrame {
    Status_1_General,
    Status_2_Feedback0,
    Status_4_AinTempVbat,
    Status_6_Misc,
    Status_7_CommStatus,
    Status_9_MotProfBuffer,
    Status_10_Targets,
    Status_12_Feedback1,
    Status_13_Base_PIDF0,
    Status_14_Turn_PIDF1,
    Status_15_FirmareApiStatus,
}

impl StatusFrame {
    /// The number that the controller knows the value by.
    pub open spec fn code_value(self) -> i32 {
        match self {
            StatusFrame::Status_1_General => 5120,
            StatusFrame::Status_2_Feedback0 => 5184,
            StatusFrame::Status_4_AinTempVbat => 5312,
            StatusFrame::Status_6_Misc => 5440,
            StatusFrame::Status_7_CommStatus => 5504,
            StatusFrame::Status_9_MotProfBuffer => 5632,
            StatusFrame::Status_10_Targets => 5696,
            StatusFrame::Status_12_Feedback1 => 5824,
            StatusFrame::Status_13_Base_PIDF0 => 5888,
            StatusFrame::Status_14_Turn_PIDF1 => 5952,
            StatusFrame::Status_15_FirmareApiStatus => 6016,
        }
    }

    /// The number that the controller knows the value by.
    pub fn code(self) -> (r: i32)
        ensures
            r == self.code_value(),
    {
        match self {
            StatusFrame::Status_1_General => 5120,
            StatusFrame::Status_2_Feedback0 => 5184,
            StatusFrame::Status_4_AinTempVbat => 5312,
            StatusFrame::Status_6_Misc => 5440,
            StatusFrame::Status_7_CommStatus => 5504,
            StatusFrame::Status_9_MotProfBuffer => 5632,
            StatusFrame::Status_10_Targets => 5696,
            StatusFrame::Status_12_Feedback1 => 5824,
            StatusFrame::Status_13_Base_PIDF0 => 5888,
            StatusFrame::Status_14_Turn_PIDF1 => 5952,
            StatusFrame::Status_15_FirmareApiStatus => 6016,
        }
    }
}

/// A status frame of a Talon SRX.
#[allow(non_camel_case_types)]
#[derive(Debug, Copy, Clone, PartialEq, Eq, Structural)]
pub enum StatusFrameEnhanced {
    Status_1_General,
    Status_2_Feedback0,
    Status_4_AinTempVbat,
    Status_6_Misc,
    Status_7_CommStatus,
    Status_9_MotProfBuffer,
    Status_10_Targets,
    Status_12_Feedback1,
    Status_13_Base_PIDF0,
    Status_14_Turn_PIDF1,
    Status_15_FirmareApiStatus,
    Status_3_Quadrature,
    Status_8_PulseWidth,
    Status_11_UartGadgeteer,
}

impl StatusFrameEnhanced {
    /// The number that the controller knows the value by.
    pub open spec fn code_value(self) -> i32 {
        match self {
            StatusFrameEnhanced::Status_1_General => 5120,
            StatusFrameEnhanced::Status_2_Feedback0 => 5184,
            StatusFrameEnhanced::Status_4_AinTempVbat => 5312,
            StatusFrameEnhanced::Status_6_Misc => 5440,
            StatusFrameEnhanced::Status_7_CommStatus => 5504,
            StatusFrameEnhanced::Status_9_MotProfBuffer => 5632,
            StatusFrameEnhanced::Status_10_Targets => 5696,
            StatusFrameEnhanced::Status_12_Feedback1 => 5824,
            StatusFrameEnhanced::Status_13_Base_PIDF0 => 5888,
            StatusFrameEnhanced::Status_14_Turn_PIDF1 => 5952,
            StatusFrameEnhanced::Status_15_FirmareApiStatus => 6016,
            StatusFrameEnhanced::Status_3_Quadrature => 5248,
            StatusFrameEnhanced::Status_8_PulseWidth => 5568,
            StatusFrameEnhanced::Status_11_UartGadgeteer => 5760,
        }
    }

    /// The number that the controller knows the value by.
    pub fn code(self) -> (r: i32)
        ensures
            r == self.code_value(),
    {
        match self {
            StatusFrameEnhanced::Status_1_General => 5120,
            StatusFrameEnhanced::Status_2_Feedback0 => 5184,
            StatusFrameEnhanced::Status_4_AinTempVbat => 5312,
            StatusFrameEnhanced::Status_6_Misc => 5440,
            StatusFrameEnhanced::Status_7_CommStatus => 5504,
            StatusFrameEnhanced::Status_9_MotProfBuffer => 5632,
            StatusFrameEnhanced::Status_10_Targets => 5696,
            StatusFrameEnhanced::Status_12_Feedback1 => 5824,
            StatusFrameEnhanced::Status_13_Base_PIDF0 => 5888,
            StatusFrameEnhanced::Status_14_Turn_PIDF1 => 5952,
            StatusFrameEnhanced::Status_15_FirmareApiStatus => 6016,
            StatusFrameEnhanced::Status_3_Quadrature => 5248,
            StatusFrameEnhanced::Status_8_PulseWidth => 5568,
            StatusFrameEnhanced::Status_11_UartGadgeteer => 5760,
        }
    }
}

/// Where a Talon SRX takes a limit switch from.
#[derive(Debug, Copy, Clone, PartialEq, Eq, Structural)]
pub enum LimitSwitchSource {
    /// The controller's own feedback connector.
    FeedbackConnector,
    RemoteTalonSRX,
    RemoteCANifier,
    Deactivated,
}

impl LimitSwitchSource {
    /// The number that the controller knows the value by.
    pub open spec fn code_value(self) -> i32 {
        match self {
            LimitSwitchSource::FeedbackConnector => 0,
            LimitSwitchSource::RemoteTalonSRX => 1,
            LimitSwitchSource::RemoteCANifier => 2,
            LimitSwitchSource::Deactivated => 3,
        }
    }

    /// The number that the controller knows the value by.
    pub fn code(self) -> (r: i32)
        ensures
            r == self.code_value(),
    {
        match self {
            LimitSwitchSource::FeedbackConnector => 0,
            LimitSwitchSource::RemoteTalonSRX => 1,
            LimitSwitchSource::RemoteCANifier => 2,
            LimitSwitchSource::Deactivated => 3,
        }
    }
}

/// Where either family takes a limit switch from, if not from itself.
#[derive(Debug, Copy, Clone, PartialEq, Eq, Structural)]
pub enum RemoteLimitSwitchSource {
    RemoteTalonSRX,
    RemoteCANifier,
    Deactivated,
}

impl RemoteLimitSwitchSource {
    /// The number that the controller knows the value by.
    pub open spec fn code_value(self) -> i32 {
        match self {
            RemoteLimitSwitchSource::RemoteTalonSRX => 1,
            RemoteLimitSwitchSource::RemoteCANifier => 2,
            RemoteLimitSwitchSource::Deactivated => 3,
        }
    }

    /// The number that the controller knows the value by.
    pub fn code(self) -> (r: i32)
        ensures
            r == self.code_value(),
    {
        match self {
            RemoteLimitSwitchSource::RemoteTalonSRX => 1,
            RemoteLimitSwitchSource::RemoteCANifier => 2,
            RemoteLimitSwitchSource::Deactivated => 3,
        }
    }
}

/// How a limit switch is wired.
#[derive(Debug, Copy, Clone, PartialEq, Eq, Structural)]
pub enum LimitSwitchNormal {
    NormallyOpen,
    NormallyClosed,
    Disabled,
}

impl LimitSwitchNormal {
    /// The number that the controller knows the value by.
    pub open spec fn code_value(self) -> i32 {
        match self {
            LimitSwitchNormal::NormallyOpen => 0,
            LimitSwitchNormal::NormallyClosed => 1,
            LimitSwitchNormal::Disabled => 2,
        }
    }

    /// The number that the controller knows the value by.
    pub fn code(self) -> (r: i32)
        ensures
            r == self.code_value(),
    {
        match self {
            LimitSwitchNormal::NormallyOpen => 0,
            LimitSwitchNormal::NormallyClosed => 1,
            LimitSwitchNormal::Disabled => 2,
        }
    }
}

/// The period over which one velocity sample is taken.
#[allow(non_camel_case_types)]
#[derive(Debug, Copy, Clone, PartialEq, Eq, Structural)]
pub enum VelocityMeasPeriod {
    Period_1Ms,
    Period_2Ms,
    Period_5Ms,
    Period_10Ms,
    Period_20Ms,
    Period_25Ms,
    Period_50Ms,
    Period_100Ms,
}

impl VelocityMeasPeriod {
    /// The number that the controller knows the value by.
    pub open spec fn code_value(self) -> i32 {
        match self {
            VelocityMeasPeriod::Period_1Ms => 1,
            VelocityMeasPeriod::Period_2Ms => 2,
            VelocityMeasPeriod::Period_5Ms => 5,
            VelocityMeasPeriod::Period_10Ms => 10,
            VelocityMeasPeriod::Period_20Ms => 20,
            VelocityMeasPeriod::Period_25Ms => 25,
            VelocityMeasPeriod::Period_50Ms => 50,
            VelocityMeasPeriod::Period_100Ms => 100,
        }
    }

    /// The number that the controller knows the value by.
    pub fn code(self) -> (r: i32)
        ensures
            r == self.code_value(),
    {
        match self {
            VelocityMeasPeriod::Period_1Ms => 1,
            VelocityMeasPeriod::Period_2Ms => 2,
            VelocityMeasPeriod::Period_5Ms => 5,
            VelocityMeasPeriod::Period_10Ms => 10,
            VelocityMeasPeriod::Period_20Ms => 20,
            VelocityMeasPeriod::Period_25Ms => 25,
            VelocityMeasPeriod::Period_50Ms => 50,
            VelocityMeasPeriod::Period_100Ms => 100,
        }
    }
}

/// The identifier of a parameter.
#[allow(non_camel_case_types)]
#[derive(Debug, Copy, Clone, PartialEq, Eq, Structural)]
pub enum ParamEnum {
    OnBoot_BrakeMode,
    QuadFilterEn,
    QuadIdxPolarity,
    ClearPositionOnIdx,
    MotionProfileHasUnderrunErr,
    MotionProfileTrajectoryPointDurationMs,
    ClearPosOnLimitF,
    ClearPosOnLimitR,
    StatusFramePeriod,
    OpenloopRamp,
    ClosedloopRamp,
    NeutralDeadband,
    PeakPosOutput,
    NominalPosOutput,
    PeakNegOutput,
    NominalNegOutput,
    ProfileParamSlot_P,
    ProfileParamSlot_I,
    ProfileParamSlot_D,
    ProfileParamSlot_F,
    ProfileParamSlot_IZone,
    ProfileParamSlot_AllowableErr,
    ProfileParamSlot_MaxIAccum,
    ProfileParamSlot_PeakOutput,
    ClearPositionOnLimitF,
    ClearPositionOnLimitR,
    ClearPositionOnQuadIdx,
    SampleVelocityPeriod,
    SampleVelocityWindow,
    FeedbackSensorType,
    SelectedSensorPosition,
    FeedbackNotContinuous,
    RemoteSensorSource,
    RemoteSensorDeviceID,
    SensorTerm,
    RemoteSensorClosedLoopDisableNeutralOnLOS,
    PIDLoopPolarity,
    PIDLoopPeriod,
    SelectedSensorCoefficient,
    ForwardSoftLimitThreshold,
    ReverseSoftLimitThreshold,
    ForwardSoftLimitEnable,
    ReverseSoftLimitEnable,
    NominalBatteryVoltage,
    BatteryVoltageFilterSize,
    ContinuousCurrentLimitAmps,
    PeakCurrentLimitMs,
    PeakCurrentLimitAmps,
    ClosedLoopIAccum,
    CustomParam,
    StickyFaults,
    AnalogPosition,
    QuadraturePosition,
    PulseWidthPosition,
    MotMag_Accel,
    MotMag_VelCruise,
    LimitSwitchSource,
    LimitSwitchNormClosedAndDis,
    LimitSwitchDisableNeutralOnLOS,
    LimitSwitchRemoteDevID,
    SoftLimitDisableNeutralOnLOS,
    PulseWidthPeriod_EdgesPerRot,
    PulseWidthPeriod_FilterWindowSz,
    YawOffset,
    CompassOffset,
    BetaGain,
    EnableCompassFusion,
    GyroNoMotionCal,
    EnterCalibration,
    FusedHeadingOffset,
    StatusFrameRate,
    AccumZ,
    TempCompDisable,
    MotionMeas_tap_threshX,
    MotionMeas_tap_threshY,
    MotionMeas_tap_threshZ,
    MotionMeas_tap_count,
    MotionMeas_tap_time,
    MotionMeas_tap_time_multi,
    MotionMeas_shake_reject_thresh,
    MotionMeas_shake_reject_time,
    MotionMeas_shake_reject_timeout,
}

impl ParamEnum {
    /// The number that the controller knows the value by.
    pub open spec fn code_value(self) -> i32 {
        match self {
            ParamEnum::OnBoot_BrakeMode => 31,
            ParamEnum::QuadFilterEn => 91,
            ParamEnum::QuadIdxPolarity => 108,
            ParamEnum::ClearPositionOnIdx => 100,
            ParamEnum::MotionProfileHasUnderrunErr => 119,
            ParamEnum::MotionProfileTrajectoryPointDurationMs => 120,
            ParamEnum::ClearPosOnLimitF => 144,
            ParamEnum::ClearPosOnLimitR => 145,
            ParamEnum::StatusFramePeriod => 300,
            ParamEnum::OpenloopRamp => 301,
            ParamEnum::ClosedloopRamp => 302,
            ParamEnum::NeutralDeadband => 303,
            ParamEnum::PeakPosOutput => 305,
            ParamEnum::NominalPosOutput => 306,
            ParamEnum::PeakNegOutput => 307,
            ParamEnum::NominalNegOutput => 308,
            ParamEnum::ProfileParamSlot_P => 310,
            ParamEnum::ProfileParamSlot_I => 311,
            ParamEnum::ProfileParamSlot_D => 312,
            ParamEnum::ProfileParamSlot_F => 313,
            ParamEnum::ProfileParamSlot_IZone => 314,
            ParamEnum::ProfileParamSlot_AllowableErr => 315,
            ParamEnum::ProfileParamSlot_MaxIAccum => 316,
            ParamEnum::ProfileParamSlot_PeakOutput => 317,
            ParamEnum::ClearPositionOnLimitF => 320,
            ParamEnum::ClearPositionOnLimitR => 321,
            ParamEnum::ClearPositionOnQuadIdx => 322,
            ParamEnum::SampleVelocityPeriod => 325,
            ParamEnum::SampleVelocityWindow => 326,
            ParamEnum::FeedbackSensorType => 330,
            ParamEnum::SelectedSensorPosition => 331,
            ParamEnum::FeedbackNotContinuous => 332,
            ParamEnum::RemoteSensorSource => 333,
            ParamEnum::RemoteSensorDeviceID => 334,
            ParamEnum::SensorTerm => 335,
            ParamEnum::RemoteSensorClosedLoopDisableNeutralOnLOS => 336,
            ParamEnum::PIDLoopPolarity => 337,
            ParamEnum::PIDLoopPeriod => 338,
            ParamEnum::SelectedSensorCoefficient => 339,
            ParamEnum::ForwardSoftLimitThreshold => 340,
            ParamEnum::ReverseSoftLimitThreshold => 341,
            ParamEnum::ForwardSoftLimitEnable => 342,
            ParamEnum::ReverseSoftLimitEnable => 343,
            ParamEnum::NominalBatteryVoltage => 350,
            ParamEnum::BatteryVoltageFilterSize => 351,
            ParamEnum::ContinuousCurrentLimitAmps => 360,
            ParamEnum::PeakCurrentLimitMs => 361,
            ParamEnum::PeakCurrentLimitAmps => 362,
            ParamEnum::ClosedLoopIAccum => 370,
            ParamEnum::CustomParam => 380,
            ParamEnum::StickyFaults => 390,
            ParamEnum::AnalogPosition => 400,
            ParamEnum::QuadraturePosition => 401,
            ParamEnum::PulseWidthPosition => 402,
            ParamEnum::MotMag_Accel => 410,
            ParamEnum::MotMag_VelCruise => 411,
            ParamEnum::LimitSwitchSource => 421,
            ParamEnum::LimitSwitchNormClosedAndDis => 422,
            ParamEnum::LimitSwitchDisableNeutralOnLOS => 423,
            ParamEnum::LimitSwitchRemoteDevID => 424,
            ParamEnum::SoftLimitDisableNeutralOnLOS => 425,
            ParamEnum::PulseWidthPeriod_EdgesPerRot => 430,
            ParamEnum::PulseWidthPeriod_FilterWindowSz => 431,
            ParamEnum::YawOffset => 160,
            ParamEnum::CompassOffset => 161,
            ParamEnum::BetaGain => 162,
            ParamEnum::EnableCompassFusion => 163,
            ParamEnum::GyroNoMotionCal => 164,
            ParamEnum::EnterCalibration => 165,
            ParamEnum::FusedHeadingOffset => 166,
            ParamEnum::StatusFrameRate => 169,
            ParamEnum::AccumZ => 170,
            ParamEnum::TempCompDisable => 171,
            ParamEnum::MotionMeas_tap_threshX => 172,
            ParamEnum::MotionMeas_tap_threshY => 173,
            ParamEnum::MotionMeas_tap_threshZ => 174,
            ParamEnum::MotionMeas_tap_count => 175,
            ParamEnum::MotionMeas_tap_time => 176,
            ParamEnum::MotionMeas_tap_time_multi => 177,
            ParamEnum::MotionMeas_shake_reject_thresh => 178,
            ParamEnum::MotionMeas_shake_reject_time => 179,
            ParamEnum::MotionMeas_shake_reject_timeout => 180,
        }
    }

    /// The number that the controller knows the value by.
    pub fn code(self) -> (r: i32)
        ensures
            r == self.code_value(),
    {
        match self {
            ParamEnum::OnBoot_BrakeMode => 31,
            ParamEnum::QuadFilterEn => 91,
            ParamEnum::QuadIdxPolarity => 108,
            ParamEnum::ClearPositionOnIdx => 100,
            ParamEnum::MotionProfileHasUnderrunErr => 119,
            ParamEnum::MotionProfileTrajectoryPointDurationMs => 120,
            ParamEnum::ClearPosOnLimitF => 144,
            ParamEnum::ClearPosOnLimitR => 145,
            ParamEnum::StatusFramePeriod => 300,
            ParamEnum::OpenloopRamp => 301,
            ParamEnum::ClosedloopRamp => 302,
            ParamEnum::NeutralDeadband => 303,
            ParamEnum::PeakPosOutput => 305,
            ParamEnum::NominalPosOutput => 306,
            ParamEnum::PeakNegOutput => 307,
            ParamEnum::NominalNegOutput => 308,
            ParamEnum::ProfileParamSlot_P => 310,
            ParamEnum::ProfileParamSlot_I => 311,
            ParamEnum::ProfileParamSlot_D => 312,
            ParamEnum::ProfileParamSlot_F => 313,
            ParamEnum::ProfileParamSlot_IZone => 314,
            ParamEnum::ProfileParamSlot_AllowableErr => 315,
            ParamEnum::ProfileParamSlot_MaxIAccum => 316,
            ParamEnum::ProfileParamSlot_PeakOutput => 317,
            ParamEnum::ClearPositionOnLimitF => 320,
            ParamEnum::ClearPositionOnLimitR => 321,
            ParamEnum::ClearPositionOnQuadIdx => 322,
            ParamEnum::SampleVelocityPeriod => 325,
            ParamEnum::SampleVelocityWindow => 326,
            ParamEnum::FeedbackSensorType => 330,
            ParamEnum::SelectedSensorPosition => 331,
            ParamEnum::FeedbackNotContinuous => 332,
            ParamEnum::RemoteSensorSource => 333,
            ParamEnum::RemoteSensorDeviceID => 334,
            ParamEnum::SensorTerm => 335,
            ParamEnum::RemoteSensorClosedLoopDisableNeutralOnLOS => 336,
            ParamEnum::PIDLoopPolarity => 337,
            ParamEnum::PIDLoopPeriod => 338,
            ParamEnum::SelectedSensorCoefficient => 339,
            ParamEnum::ForwardSoftLimitThreshold => 340,
            ParamEnum::ReverseSoftLimitThreshold => 341,
            ParamEnum::ForwardSoftLimitEnable => 342,
            ParamEnum::ReverseSoftLimitEnable => 343,
            ParamEnum::NominalBatteryVoltage => 350,
            ParamEnum::BatteryVoltageFilterSize => 351,
            ParamEnum::ContinuousCurrentLimitAmps => 360,
            ParamEnum::PeakCurrentLimitMs => 361,
            ParamEnum::PeakCurrentLimitAmps => 362,
            ParamEnum::ClosedLoopIAccum => 370,
            ParamEnum::CustomParam => 380,
            ParamEnum::StickyFaults => 390,
            ParamEnum::AnalogPosition => 400,
            ParamEnum::QuadraturePosition => 401,
            ParamEnum::PulseWidthPosition => 402,
            ParamEnum::MotMag_Accel => 410,
            ParamEnum::MotMag_VelCruise => 411,
            ParamEnum::LimitSwitchSource => 421,
            ParamEnum::LimitSwitchNormClosedAndDis => 422,
            ParamEnum::LimitSwitchDisableNeutralOnLOS => 423,
            ParamEnum::LimitSwitchRemoteDevID => 424,
            ParamEnum::SoftLimitDisableNeutralOnLOS => 425,
            ParamEnum::PulseWidthPeriod_EdgesPerRot => 430,
            ParamEnum::PulseWidthPeriod_FilterWindowSz => 431,
            ParamEnum::YawOffset => 160,
            ParamEnum::CompassOffset => 161,
            ParamEnum::BetaGain => 162,
            ParamEnum::EnableCompassFusion => 163,
            ParamEnum::GyroNoMotionCal => 164,
            ParamEnum::EnterCalibration => 165,
            ParamEnum::FusedHeadingOffset => 166,
            ParamEnum::StatusFrameRate => 169,
            ParamEnum::AccumZ => 170,
            ParamEnum::TempCompDisable => 171,
            ParamEnum::MotionMeas_tap_threshX => 172,
            ParamEnum::MotionMeas_tap_threshY => 173,
            ParamEnum::MotionMeas_tap_threshZ => 174,
            ParamEnum::MotionMeas_tap_count => 175,
            ParamEnum::MotionMeas_tap_time => 176,
            ParamEnum::MotionMeas_tap_time_multi => 177,
            ParamEnum::MotionMeas_shake_reject_thresh => 178,
            ParamEnum::MotionMeas_shake_reject_time => 179,
            ParamEnum::MotionMeas_shake_reject_timeout => 180,
        }
    }
}

/// One request that is answered by a status code or by nothing. But for the
/// first, each is built by the controller method of its name, whose comment
/// says what it asks.
#[allow(inconsistent_fields)]
#[derive(Debug, Copy, Clone, PartialEq, Eq, Structural)]
pub enum Request {
    /// A control mode with its demands.
    Control(Command),
    SetNeutralMode { neutral_mode: NeutralMode },
    SetSensorPhase { phase_sensor: bool },
    SetInverted { invert: bool },
    ConfigOpenloopRamp { seconds_from_neutral_to_full: Demand, timeout_ms: i32 },
    ConfigClosedloopRamp { seconds_from_neutral_to_full: Demand, timeout_ms: i32 },
    ConfigPeakOutputForward { percent_out: Demand, timeout_ms: i32 },
    ConfigPeakOutputReverse { percent_out: Demand, timeout_ms: i32 },
    ConfigNominalOutputForward { percent_out: Demand, timeout_ms: i32 },
    ConfigNominalOutputReverse { percent_out: Demand, timeout_ms: i32 },
    ConfigNeutralDeadband { percent_deadband: Demand, timeout_ms: i32 },
    ConfigVoltageCompSaturation { voltage: Demand, timeout_ms: i32 },
    ConfigVoltageMeasurementFilter { filter_window_samples: i32, timeout_ms: i32 },
    EnableVoltageCompensation { enable: bool },
    ConfigSelectedRemoteFeedbackSensor {
        feedback_device: RemoteFeedbackDevice,
        pid_idx: i32,
        timeout_ms: i32,
    },
    ConfigSelectedFeedbackCoefficient { coefficient: Demand, pid_idx: i32, timeout_ms: i32 },
    ConfigRemoteFeedbackFilter {
        device_id: i32,
        remote_sensor_source: RemoteSensorSource,
        remote_ordinal: i32,
        timeout_ms: i32,
    },
    ConfigSensorTerm { sensor_term: SensorTerm, feedback_device: FeedbackDevice, timeout_ms: i32 },
    SetSelectedSensorPosition { sensor_pos: i32, pid_idx: i32, timeout_ms: i32 },
    SetControlFramePeriod { frame: ControlFrame, period_ms: i32 },
    SetStatusFramePeriod { frame: StatusFrame, period_ms: i32, timeout_ms: i32 },
    ConfigForwardRemoteLimitSwitchSource {
        type_: RemoteLimitSwitchSource,
        normal_open_or_close: LimitSwitchNormal,
        device_id: i32,
        timeout_ms: i32,
    },
    ConfigReverseRemoteLimitSwitchSource {
        type_: RemoteLimitSwitchSource,
        normal_open_or_close: LimitSwitchNormal,
        device_id: i32,
        timeout_ms: i32,
    },
    OverrideLimitSwitchesEnable { enable: bool },
    ConfigForwardSoftLimitThreshold { forward_sensor_limit: i32, timeout_ms: i32 },
    ConfigReverseSoftLimitThreshold { reverse_sensor_limit: i32, timeout_ms: i32 },
    ConfigForwardSoftLimitEnable { enable: bool, timeout_ms: i32 },
    ConfigReverseSoftLimitEnable { enable: bool, timeout_ms: i32 },
    OverrideSoftLimitsEnable { enable: bool },
    ConfigKp { slot_idx: i32, value: Demand, timeout_ms: i32 },
    ConfigKi { slot_idx: i32, value: Demand, timeout_ms: i32 },
    ConfigKd { slot_idx: i32, value: Demand, timeout_ms: i32 },
    ConfigKf { slot_idx: i32, value: Demand, timeout_ms: i32 },
    ConfigAllowableClosedloopError {
        slot_idx: i32,
        allowable_closed_loop_error: i32,
        timeout_ms: i32,
    },
    ConfigMaxIntegralAccumulator { slot_idx: i32, iaccum: Demand, timeout_ms: i32 },
    ConfigClosedLoopPeakOutput { slot_idx: i32, percent_out: Demand, timeout_ms: i32 },
    ConfigClosedLoopPeriod { slot_idx: i32, loop_time_ms: i32, timeout_ms: i32 },
    SetIntegralAccumulator { iaccum: Demand, pid_idx: i32, timeout_ms: i32 },
    SelectProfileSlot { slot_idx: i32, pid_idx: i32 },
    ConfigMotionCruiseVelocity { sensor_units_per_100ms: i32, timeout_ms: i32 },
    ConfigMotionAcceleration { sensor_units_per_100ms_per_sec: i32, timeout_ms: i32 },
    ClearMotionProfileTrajectories,
    PushMotionProfileTrajectory { traj_pt: TrajectoryPoint },
    ProcessMotionProfileBuffer,
    ClearMotionProfileHasUnderrun { timeout_ms: i32 },
    ChangeMotionControlFramePeriod { period_ms: i32 },
    ConfigMotionProfileTrajectoryPeriod { base_traj_duration_ms: i32, timeout_ms: i32 },
    GetLastError,
    ClearStickyFaults { timeout_ms: i32 },
    ConfigSetCustomParam { new_value: i32, param_index: i32, timeout_ms: i32 },
    ConfigSetParameter {
        param: ParamEnum,
        value: Demand,
        sub_value: u8,
        ordinal: i32,
        timeout_ms: i32,
    },
    SetAnalogPosition { new_position: i32, timeout_ms: i32 },
    SetQuadraturePosition { new_position: i32, timeout_ms: i32 },
    SetPulseWidthPosition { new_position: i32, timeout_ms: i32 },
    ConfigSelectedFeedbackSensor { feedback_device: FeedbackDevice, pid_idx: i32, timeout_ms: i32 },
    SetStatusFramePeriodEnhanced { frame: StatusFrameEnhanced, period_ms: i32, timeout_ms: i32 },
    ConfigVelocityMeasurementPeriod { period: VelocityMeasPeriod, timeout_ms: i32 },
    ConfigVelocityMeasurementWindow { window_size: i32, timeout_ms: i32 },
    ConfigPeakCurrentLimit { amps: i32, timeout_ms: i32 },
    ConfigContinuousCurrentLimit { amps: i32, timeout_ms: i32 },
    EnableCurrentLimit { enable: bool },
    ConfigIntegralZone { slot_idx: i32, izone: Demand, timeout_ms: i32 },
    ConfigForwardLimitSwitchSource {
        type_: LimitSwitchSource,
        normal_open_or_close: LimitSwitchNormal,
        device_id: i32,
        timeout_ms: i32,
    },
    ConfigReverseLimitSwitchSource {
        type_: LimitSwitchSource,
        normal_open_or_close: LimitSwitchNormal,
        device_id: i32,
        timeout_ms: i32,
    },
}

/// A question that is answered by a whole number, or by the code of the
/// failure. Each is built by the controller method of its name.
#[allow(inconsistent_fields)]
#[derive(Debug, Copy, Clone, PartialEq, Eq, Structural)]
pub enum WholeQuery {
    GetSelectedSensorPosition { pid_idx: i32 },
    GetSelectedSensorVelocity { pid_idx: i32 },
    GetStatusFramePeriod { frame: StatusFrame, timeout_ms: i32 },
    GetClosedLoopError { pid_idx: i32 },
    GetClosedLoopTarget { pid_idx: i32 },
    GetActiveTrajectoryPosition,
    GetActiveTrajectoryVelocity,
    GetMotionProfileTopLevelBufferCount,
    GetFaults,
    GetStickyFaults,
    GetFirmwareVersion,
    ConfigGetCustomParam { param_index: i32, timout_ms: i32 },
    GetAnalogIn,
    GetAnalogInRaw,
    GetAnalogInVel,
    GetQuadraturePosition,
    GetQuadratureVelocity,
    GetPulseWidthPosition,
    GetPulseWidthVelocity,
    GetPulseWidthRiseToFallUs,
    GetPulseWidthRiseToRiseUs,
    GetPinStateQuadA,
    GetPinStateQuadB,
    GetPinStateQuadIdx,
    IsFwdLimitSwitchClosed,
    IsRevLimitSwitchClosed,
    GetStatusFramePeriodEnhanced { frame: StatusFrameEnhanced, timeout_ms: i32 },
}

/// A question that is answered by a number, or by the code of the failure.
/// Each is built by the controller method of its name.
#[allow(inconsistent_fields)]
#[derive(Debug, Copy, Clone, PartialEq, Eq, Structural)]
pub enum RealQuery {
    GetBusVoltage,
    GetMotorOutputPercent,
    GetOutputCurrent,
    GetTemperature,
    GetIntegralAccumulator { pid_idx: i32 },
    GetErrorDerivative { pid_idx: i32 },
    GetActiveTrajectoryHeading,
    ConfigGetParameter { param: ParamEnum, ordinal: i32, timeout_ms: i32 },
}

/// A question that is answered by a flag, or by the code of the failure. Each
/// is built by the controller method of its name.
#[derive(Debug, Copy, Clone, PartialEq, Eq, Structural)]
pub enum FlagQuery {
    IsMotionProfileTopLevelBufferFull,
    HasResetOccurred,
}

/// The question that is answered by a motion profile snapshot, or by the code
/// of the failure.
#[derive(Debug, Copy, Clone, PartialEq, Eq, Structural)]
pub enum StatusQuery {
    GetMotionProfileStatus,
}

impl Request {
    /// The request that carries `command`.
    pub fn from_command(command: Command) -> (r: Request)
        ensures
            r == Request::Control(command),
    {
        Request::Control(command)
    }
}

/// Whether a request with this timeout holds its caller until the device has
/// confirmed it or the time is up. With a timeout of 0 nothing is waited for.
pub open spec fn waits_for_confirmation_value(timeout_ms: i32) -> bool {
    timeout_ms > 0
}

/// Whether a request with this timeout holds its caller until the device has
/// confirmed it or the time is up.
pub fn waits_for_confirmation(timeout_ms: i32) -> (r: bool)
    ensures
        r == waits_for_confirmation_value(timeout_ms),
{
    timeout_ms > 0
}

} // verus!
