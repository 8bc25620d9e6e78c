use vstd::prelude::*;
use crate::context::{flag_after, readable, refused_before_read, ContextState, DSSContext};
use crate::error::{fails_with, DSSError, ErrorKind};

verus! {

/// An enumeration that crosses the engine boundary as a 32-bit integer.
pub trait EngineEnum: Sized {
    /// The engine's integer for this value.
    spec fn spec_code(&self) -> i32;

    fn code(&self) -> (r: i32)
        ensures
            r == self.spec_code(),
    ;

    /// The value whose integer is `code`, if there is one.
    fn from_code(code: i32) -> (r: Option<Self>)
        ensures
            r matches Some(e) ==> e.spec_code() == code,
            r is None ==> forall|e: Self| #[trigger] e.spec_code() != code,
    ;

    /// Distinct values have distinct integers.
    proof fn lemma_code_injective(a: Self, b: Self)
        ensures
            a.spec_code() == b.spec_code() ==> a == b,
    ;
}

#[allow(non_camel_case_types)]
#[derive(Clone, Copy, Debug, PartialEq, Eq, Structural)]
pub enum ActionCodes {
    none,
    Open,
    Close,
    Reset,
    Lock,
    Unlock,
    TapUp,
    TapDown,
}

impl EngineEnum for ActionCodes {
    open spec fn spec_code(&self) -> i32 {
        match self {
            ActionCodes::none => 0,
            ActionCodes::Open => 1,
            ActionCodes::Close => 2,
            ActionCodes::Reset => 3,
            ActionCodes::Lock => 4,
            ActionCodes::Unlock => 5,
            ActionCodes::TapUp => 6,
            ActionCodes::TapDown => 7,
        }
    }

    fn code(&self) -> (r: i32) {
        match self {
            ActionCodes::none => 0,
            ActionCodes::Open => 1,
            ActionCodes::Close => 2,
            ActionCodes::Reset => 3,
            ActionCodes::Lock => 4,
            ActionCodes::Unlock => 5,
            ActionCodes::TapUp => 6,
            ActionCodes::TapDown => 7,
        }
    }

    fn from_code(code: i32) -> (r: Option<Self>) {
        match code {
            0 => Some(ActionCodes::none),
            1 => Some(ActionCodes::Open),
            2 => Some(ActionCodes::Close),
            3 => Some(ActionCodes::Reset),
            4 => Some(ActionCodes::Lock),
            5 => Some(ActionCodes::Unlock),
            6 => Some(ActionCodes::TapUp),
            7 => Some(ActionCodes::TapDown),
            _ => None,
        }
    }

    proof fn lemma_code_injective(a: Self, b: Self) {
    }
}

/// Event codes used by the event callback system
///
/// Legacy events are the events present the classic OpenDSS COM implementation,
/// while the rest are extensions added here.
#[allow(non_camel_case_types)]
#[derive(Clone, Copy, Debug, PartialEq, Eq, Structural)]
pub enum AltDSSEvent {
    Legacy_InitControls,
    Legacy_CheckControls,
    Legacy_StepControls,
    Clear,
    ReprocessBuses,
    BuildSystemY,
}

impl EngineEnum for AltDSSEvent {
    open spec fn spec_code(&self) -> i32 {
        match self {
            AltDSSEvent::Legacy_InitControls => 0,
            AltDSSEvent::Legacy_CheckControls => 1,
            AltDSSEvent::Legacy_StepControls => 2,
            AltDSSEvent::Clear => 3,
            AltDSSEvent::ReprocessBuses => 4,
            AltDSSEvent::BuildSystemY => 5,
        }
    }

    fn code(&self) -> (r: i32) {
        match self {
            AltDSSEvent::Legacy_InitControls => 0,
            AltDSSEvent::Legacy_CheckControls => 1,
            AltDSSEvent::Legacy_StepControls => 2,
            AltDSSEvent::Clear => 3,
            AltDSSEvent::ReprocessBuses => 4,
            AltDSSEvent::BuildSystemY => 5,
        }
    }

    fn from_code(code: i32) -> (r: Option<Self>) {
        match code {
            0 => Some(AltDSSEvent::Legacy_InitControls),
            1 => Some(AltDSSEvent::Legacy_CheckControls),
            2 => Some(AltDSSEvent::Legacy_StepControls),
            3 => Some(AltDSSEvent::Clear),
            4 => Some(AltDSSEvent::ReprocessBuses),
            5 => Some(AltDSSEvent::BuildSystemY),
            _ => None,
        }
    }

    proof fn lemma_code_injective(a: Self, b: Self) {
    }
}

#[allow(non_camel_case_types)]
#[derive(Clone, Copy, Debug, PartialEq, Eq, Structural)]
pub enum AutoAddTypes {
    AddGen,
    AddCap,
}

impl EngineEnum for AutoAddTypes {
    open spec fn spec_code(&self) -> i32 {
        match self {
            AutoAddTypes::AddGen => 1,
            AutoAddTypes::AddCap => 2,
        }
    }

    fn code(&self) -> (r: i32) {
        match self {
            AutoAddTypes::AddGen => 1,
            AutoAddTypes::AddCap => 2,
        }
    }

    fn from_code(code: i32) -> (r: Option<Self>) {
        match code {
            1 => Some(AutoAddTypes::AddGen),
            2 => Some(AutoAddTypes::AddCap),
            _ => None,
        }
    }

    proof fn lemma_code_injective(a: Self, b: Self) {
    }
}

#[allow(non_camel_case_types)]
#[derive(Clone, Copy, Debug, PartialEq, Eq, Structural)]
pub enum CapControlModes {
    Current,
    Voltage,
    KVAR,
    Time,
    PF,
}

impl EngineEnum for CapControlModes {
    open spec fn spec_code(&self) -> i32 {
        match self {
            CapControlModes::Current => 0,
            CapControlModes::Voltage => 1,
            CapControlModes::KVAR => 2,
            CapControlModes::Time => 3,
            CapControlModes::PF => 4,
        }
    }

    fn code(&self) -> (r: i32) {
        match self {
            CapControlModes::Current => 0,
            CapControlModes::Voltage => 1,
            CapControlModes::KVAR => 2,
            CapControlModes::Time => 3,
            CapControlModes::PF => 4,
        }
    }

    fn from_code(code: i32) -> (r: Option<Self>) {
        match code {
            0 => Some(CapControlModes::Current),
            1 => Some(CapControlModes::Voltage),
            2 => Some(CapControlModes::KVAR),
            3 => Some(CapControlModes::Time),
            4 => Some(CapControlModes::PF),
            _ => None,
        }
    }

    proof fn lemma_code_injective(a: Self, b: Self) {
    }
}

#[allow(non_camel_case_types)]
#[derive(Clone, Copy, Debug, PartialEq, Eq, Structural)]
pub enum CktModels {
    Multiphase,
    PositiveSeq,
}

impl EngineEnum for CktModels {
    open spec fn spec_code(&self) -> i32 {
        match self {
            CktModels::Multiphase => 0,
            CktModels::PositiveSeq => 1,
        }
    }

    fn code(&self) -> (r: i32) {
        match self {
            CktModels::Multiphase => 0,
            CktModels::PositiveSeq => 1,
        }
    }

    fn from_code(code: i32) -> (r: Option<Self>) {
        match code {
            0 => Some(CktModels::Multiphase),
            1 => Some(CktModels::PositiveSeq),
            _ => None,
        }
    }

    proof fn lemma_code_injective(a: Self, b: Self) {
    }
}

#[allow(non_camel_case_types)]
#[derive(Clone, Copy, Debug, PartialEq, Eq, Structural)]
pub enum ControlModes {
    Static,
    Event,
    Time,
    Multirate,
    Off,
}

impl EngineEnum for ControlModes {
    open spec fn spec_code(&self) -> i32 {
        match self {
            ControlModes::Static => 0,
            ControlModes::Event => 1,
            ControlModes::Time => 2,
            ControlModes::Multirate => 3,
            ControlModes::Off => -1i32,
        }
    }

    fn code(&self) -> (r: i32) {
        match self {
            ControlModes::Static => 0,
            ControlModes::Event => 1,
            ControlModes::Time => 2,
            ControlModes::Multirate => 3,
            ControlModes::Off => -1,
        }
    }

    fn from_code(code: i32) -> (r: Option<Self>) {
        match code {
            0 => Some(ControlModes::Static),
            1 => Some(ControlModes::Event),
            2 => Some(ControlModes::Time),
            3 => Some(ControlModes::Multirate),
            -1 => Some(ControlModes::Off),
            _ => None,
        }
    }

    proof fn lemma_code_injective(a: Self, b: Self) {
    }
}

/// Transformer Core Type
#[allow(non_camel_case_types)]
#[derive(Clone, Copy, Debug, PartialEq, Eq, Structural)]
pub enum CoreType {
    shell,
    one_phase,
    three_leg,
    four_leg,
    five_leg,
    core_1_phase,
}

impl EngineEnum for CoreType {
    open spec fn spec_code(&self) -> i32 {
        match self {
            CoreType::shell => 0,
            CoreType::one_phase => 1,
            CoreType::three_leg => 3,
            CoreType::four_leg => 4,
            CoreType::five_leg => 5,
            CoreType::core_1_phase => 9,
        }
    }

    fn code(&self) -> (r: i32) {
        match self {
            CoreType::shell => 0,
            CoreType::one_phase => 1,
            CoreType::three_leg => 3,
            CoreType::four_leg => 4,
            CoreType::five_leg => 5,
            CoreType::core_1_phase => 9,
        }
    }

    fn from_code(code: i32) -> (r: Option<Self>) {
        match code {
            0 => Some(CoreType::shell),
            1 => Some(CoreType::one_phase),
            3 => Some(CoreType::three_leg),
            4 => Some(CoreType::four_leg),
            5 => Some(CoreType::five_leg),
            9 => Some(CoreType::core_1_phase),
            _ => None,
        }
    }

    proof fn lemma_code_injective(a: Self, b: Self) {
    }
}

#[allow(non_camel_case_types)]
#[derive(Clone, Copy, Debug, PartialEq, Eq, Structural)]
pub enum DSSCompatFlags {
    NoSolverFloatChecks,
    BadPrecision,
    InvControl9611,
    SaveCalcVoltageBases,
    ActiveLine,
    NoPropertyTracking,
    SkipSideEffects,
}

impl EngineEnum for DSSCompatFlags {
    open spec fn spec_code(&self) -> i32 {
        match self {
            DSSCompatFlags::NoSolverFloatChecks => 1,
            DSSCompatFlags::BadPrecision => 2,
            DSSCompatFlags::InvControl9611 => 4,
            DSSCompatFlags::SaveCalcVoltageBases => 8,
            DSSCompatFlags::ActiveLine => 16,
            DSSCompatFlags::NoPropertyTracking => 32,
            DSSCompatFlags::SkipSideEffects => 64,
        }
    }

    fn code(&self) -> (r: i32) {
        match self {
            DSSCompatFlags::NoSolverFloatChecks => 1,
            DSSCompatFlags::BadPrecision => 2,
            DSSCompatFlags::InvControl9611 => 4,
            DSSCompatFlags::SaveCalcVoltageBases => 8,
            DSSCompatFlags::ActiveLine => 16,
            DSSCompatFlags::NoPropertyTracking => 32,
            DSSCompatFlags::SkipSideEffects => 64,
        }
    }

    fn from_code(code: i32) -> (r: Option<Self>) {
        match code {
            1 => Some(DSSCompatFlags::NoSolverFloatChecks),
            2 => Some(DSSCompatFlags::BadPrecision),
            4 => Some(DSSCompatFlags::InvControl9611),
            8 => Some(DSSCompatFlags::SaveCalcVoltageBases),
            16 => Some(DSSCompatFlags::ActiveLine),
            32 => Some(DSSCompatFlags::NoPropertyTracking),
            64 => Some(DSSCompatFlags::SkipSideEffects),
            _ => None,
        }
    }

    proof fn lemma_code_injective(a: Self, b: Self) {
    }
}

#[allow(non_camel_case_types)]
#[derive(Clone, Copy, Debug, PartialEq, Eq, Structural)]
pub enum DSSJSONFlags {
    Full,
    SkipRedundant,
    EnumAsInt,
    FullNames,
    Pretty,
    ExcludeDisabled,
    SkipDSSClass,
    LowercaseKeys,
    IncludeDefaultObjs,
    SkipTimestamp,
    SkipBuses,
}

impl EngineEnum for DSSJSONFlags {
    open spec fn spec_code(&self) -> i32 {
        match self {
            DSSJSONFlags::Full => 1,
            DSSJSONFlags::SkipRedundant => 2,
            DSSJSONFlags::EnumAsInt => 4,
            DSSJSONFlags::FullNames => 8,
            DSSJSONFlags::Pretty => 16,
            DSSJSONFlags::ExcludeDisabled => 32,
            DSSJSONFlags::SkipDSSClass => 64,
            DSSJSONFlags::LowercaseKeys => 128,
            DSSJSONFlags::IncludeDefaultObjs => 256,
            DSSJSONFlags::SkipTimestamp => 512,
            DSSJSONFlags::SkipBuses => 1024,
        }
    }

    fn code(&self) -> (r: i32) {
        match self {
            DSSJSONFlags::Full => 1,
            DSSJSONFlags::SkipRedundant => 2,
            DSSJSONFlags::EnumAsInt => 4,
            DSSJSONFlags::FullNames => 8,
            DSSJSONFlags::Pretty => 16,
            DSSJSONFlags::ExcludeDisabled => 32,
            DSSJSONFlags::SkipDSSClass => 64,
            DSSJSONFlags::LowercaseKeys => 128,
            DSSJSONFlags::IncludeDefaultObjs => 256,
            DSSJSONFlags::SkipTimestamp => 512,
            DSSJSONFlags::SkipBuses => 1024,
        }
    }

    fn from_code(code: i32) -> (r: Option<Self>) {
        match code {
            1 => Some(DSSJSONFlags::Full),
            2 => Some(DSSJSONFlags::SkipRedundant),
            4 => Some(DSSJSONFlags::EnumAsInt),
            8 => Some(DSSJSONFlags::FullNames),
            16 => Some(DSSJSONFlags::Pretty),
            32 => Some(DSSJSONFlags::ExcludeDisabled),
            64 => Some(DSSJSONFlags::SkipDSSClass),
            128 => Some(DSSJSONFlags::LowercaseKeys),
            256 => Some(DSSJSONFlags::IncludeDefaultObjs),
            512 => Some(DSSJSONFlags::SkipTimestamp),
            1024 => Some(DSSJSONFlags::SkipBuses),
            _ => None,
        }
    }

    proof fn lemma_code_injective(a: Self, b: Self) {
    }
}

/// This enum is used in the PropertyNameStyle property to control the naming convention.
/// Currently, this only affects capitalization, i.e., if your software already uses case
/// insensitive string comparisons for the property names, this is not useful. Otherwise,
/// you can use `Legacy` to use the older names.
#[allow(non_camel_case_types)]
#[derive(Clone, Copy, Debug, PartialEq, Eq, Structural)]
pub enum DSSPropertyNameStyle {
    Modern,
    Lowercase,
    Legacy,
}

impl EngineEnum for DSSPropertyNameStyle {
    open spec fn spec_code(&self) -> i32 {
        match self {
            DSSPropertyNameStyle::Modern => 0,
            DSSPropertyNameStyle::Lowercase => 1,
            DSSPropertyNameStyle::Legacy => 2,
        }
    }

    fn code(&self) -> (r: i32) {
        match self {
            DSSPropertyNameStyle::Modern => 0,
            DSSPropertyNameStyle::Lowercase => 1,
            DSSPropertyNameStyle::Legacy => 2,
        }
    }

    fn from_code(code: i32) -> (r: Option<Self>) {
        match code {
            0 => Some(DSSPropertyNameStyle::Modern),
            1 => Some(DSSPropertyNameStyle::Lowercase),
            2 => Some(DSSPropertyNameStyle::Legacy),
            _ => None,
        }
    }

    proof fn lemma_code_injective(a: Self, b: Self) {
    }
}

#[allow(non_camel_case_types)]
#[derive(Clone, Copy, Debug, PartialEq, Eq, Structural)]
pub enum GeneratorStatus {
    Variable,
    Fixed,
}

impl EngineEnum for GeneratorStatus {
    open spec fn spec_code(&self) -> i32 {
        match self {
            GeneratorStatus::Variable => 0,
            GeneratorStatus::Fixed => 1,
        }
    }

    fn code(&self) -> (r: i32) {
        match self {
            GeneratorStatus::Variable => 0,
            GeneratorStatus::Fixed => 1,
        }
    }

    fn from_code(code: i32) -> (r: Option<Self>) {
        match code {
            0 => Some(GeneratorStatus::Variable),
            1 => Some(GeneratorStatus::Fixed),
            _ => None,
        }
    }

    proof fn lemma_code_injective(a: Self, b: Self) {
    }
}

#[allow(non_camel_case_types)]
#[derive(Clone, Copy, Debug, PartialEq, Eq, Structural)]
pub enum LineUnits {
    none,
    Miles,
    kFt,
    km,
    meter,
    ft,
    inch,
    cm,
    mm,
}

impl EngineEnum for LineUnits {
    open spec fn spec_code(&self) -> i32 {
        match self {
            LineUnits::none => 0,
            LineUnits::Miles => 1,
            LineUnits::kFt => 2,
            LineUnits::km => 3,
            LineUnits::meter => 4,
            LineUnits::ft => 5,
            LineUnits::inch => 6,
            LineUnits::cm => 7,
            LineUnits::mm => 8,
        }
    }

    fn code(&self) -> (r: i32) {
        match self {
            LineUnits::none => 0,
            LineUnits::Miles => 1,
            LineUnits::kFt => 2,
            LineUnits::km => 3,
            LineUnits::meter => 4,
            LineUnits::ft => 5,
            LineUnits::inch => 6,
            LineUnits::cm => 7,
            LineUnits::mm => 8,
        }
    }

    fn from_code(code: i32) -> (r: Option<Self>) {
        match code {
            0 => Some(LineUnits::none),
            1 => Some(LineUnits::Miles),
            2 => Some(LineUnits::kFt),
            3 => Some(LineUnits::km),
            4 => Some(LineUnits::meter),
            5 => Some(LineUnits::ft),
            6 => Some(LineUnits::inch),
            7 => Some(LineUnits::cm),
            8 => Some(LineUnits::mm),
            _ => None,
        }
    }

    proof fn lemma_code_injective(a: Self, b: Self) {
    }
}

#[allow(non_camel_case_types)]
#[derive(Clone, Copy, Debug, PartialEq, Eq, Structural)]
pub enum LoadModels {
    ConstPQ,
    ConstZ,
    Motor,
    CVR,
    ConstI,
    ConstPFixedQ,
    ConstPFixedX,
    ZIPV,
}

impl EngineEnum for LoadModels {
    open spec fn spec_code(&self) -> i32 {
        match self {
            LoadModels::ConstPQ => 1,
            LoadModels::ConstZ => 2,
            LoadModels::Motor => 3,
            LoadModels::CVR => 4,
            LoadModels::ConstI => 5,
            LoadModels::ConstPFixedQ => 6,
            LoadModels::ConstPFixedX => 7,
            LoadModels::ZIPV => 8,
        }
    }

    fn code(&self) -> (r: i32) {
        match self {
            LoadModels::ConstPQ => 1,
            LoadModels::ConstZ => 2,
            LoadModels::Motor => 3,
            LoadModels::CVR => 4,
            LoadModels::ConstI => 5,
            LoadModels::ConstPFixedQ => 6,
            LoadModels::ConstPFixedX => 7,
            LoadModels::ZIPV => 8,
        }
    }

    fn from_code(code: i32) -> (r: Option<Self>) {
        match code {
            1 => Some(LoadModels::ConstPQ),
            2 => Some(LoadModels::ConstZ),
            3 => Some(LoadModels::Motor),
            4 => Some(LoadModels::CVR),
            5 => Some(LoadModels::ConstI),
            6 => Some(LoadModels::ConstPFixedQ),
            7 => Some(LoadModels::ConstPFixedX),
            8 => Some(LoadModels::ZIPV),
            _ => None,
        }
    }

    proof fn lemma_code_injective(a: Self, b: Self) {
    }
}

#[allow(non_camel_case_types)]
#[derive(Clone, Copy, Debug, PartialEq, Eq, Structural)]
pub enum LoadStatus {
    Variable,
    Fixed,
    Exempt,
}

impl EngineEnum for LoadStatus {
    open spec fn spec_code(&self) -> i32 {
        match self {
            LoadStatus::Variable => 0,
            LoadStatus::Fixed => 1,
            LoadStatus::Exempt => 2,
        }
    }

    fn code(&self) -> (r: i32) {
        match self {
            LoadStatus::Variable => 0,
            LoadStatus::Fixed => 1,
            LoadStatus::Exempt => 2,
        }
    }

    fn from_code(code: i32) -> (r: Option<Self>) {
        match code {
            0 => Some(LoadStatus::Variable),
            1 => Some(LoadStatus::Fixed),
            2 => Some(LoadStatus::Exempt),
            _ => None,
        }
    }

    proof fn lemma_code_injective(a: Self, b: Self) {
    }
}

#[allow(non_camel_case_types)]
#[derive(Clone, Copy, Debug, PartialEq, Eq, Structural)]
pub enum MonitorModes {
    VI,
    Power,
    Taps,
    States,
    Sequence,
    Magnitude,
    PosOnly,
}

impl EngineEnum for MonitorModes {
    open spec fn spec_code(&self) -> i32 {
        match self {
            MonitorModes::VI => 0,
            MonitorModes::Power => 1,
            MonitorModes::Taps => 2,
            MonitorModes::States => 3,
            MonitorModes::Sequence => 16,
            MonitorModes::Magnitude => 32,
            MonitorModes::PosOnly => 64,
        }
    }

    fn code(&self) -> (r: i32) {
        match self {
            MonitorModes::VI => 0,
            MonitorModes::Power => 1,
            MonitorModes::Taps => 2,
            MonitorModes::States => 3,
            MonitorModes::Sequence => 16,
            MonitorModes::Magnitude => 32,
            MonitorModes::PosOnly => 64,
        }
    }

    fn from_code(code: i32) -> (r: Option<Self>) {
        match code {
            0 => Some(MonitorModes::VI),
            1 => Some(MonitorModes::Power),
            2 => Some(MonitorModes::Taps),
            3 => Some(MonitorModes::States),
            16 => Some(MonitorModes::Sequence),
            32 => Some(MonitorModes::Magnitude),
            64 => Some(MonitorModes::PosOnly),
            _ => None,
        }
    }

    proof fn lemma_code_injective(a: Self, b: Self) {
    }
}

/// Overcurrent Protection Device Type
#[allow(non_camel_case_types)]
#[derive(Clone, Copy, Debug, PartialEq, Eq, Structural)]
pub enum OCPDevType {
    none,
    Fuse,
    Recloser,
    Relay,
}

impl EngineEnum for OCPDevType {
    open spec fn spec_code(&self) -> i32 {
        match self {
            OCPDevType::none => 0,
            OCPDevType::Fuse => 1,
            OCPDevType::Recloser => 2,
            OCPDevType::Relay => 3,
        }
    }

    fn code(&self) -> (r: i32) {
        match self {
            OCPDevType::none => 0,
            OCPDevType::Fuse => 1,
            OCPDevType::Recloser => 2,
            OCPDevType::Relay => 3,
        }
    }

    fn from_code(code: i32) -> (r: Option<Self>) {
        match code {
            0 => Some(OCPDevType::none),
            1 => Some(OCPDevType::Fuse),
            2 => Some(OCPDevType::Recloser),
            3 => Some(OCPDevType::Relay),
            _ => None,
        }
    }

    proof fn lemma_code_injective(a: Self, b: Self) {
    }
}

/// Deprecated. Please use instead:
/// - AutoAddTypes
/// - CktModels
/// - ControlModes
/// - SolutionLoadModels
/// - SolutionAlgorithms
/// - RandomModes
#[allow(non_camel_case_types)]
#[derive(Clone, Copy, Debug, PartialEq, Eq, Structural)]
pub enum Options {
    PowerFlow,
    Admittance,
    NormalSolve,
    LogNormal,
    ControlOFF,
}

impl EngineEnum for Options {
    open spec fn spec_code(&self) -> i32 {
        match self {
            Options::PowerFlow => 1,
            Options::Admittance => 2,
            Options::NormalSolve => 0,
            Options::LogNormal => 3,
            Options::ControlOFF => -1i32,
        }
    }

    fn code(&self) -> (r: i32) {
        match self {
            Options::PowerFlow => 1,
            Options::Admittance => 2,
            Options::NormalSolve => 0,
            Options::LogNormal => 3,
            Options::ControlOFF => -1,
        }
    }

    fn from_code(code: i32) -> (r: Option<Self>) {
        match code {
            1 => Some(Options::PowerFlow),
            2 => Some(Options::Admittance),
            0 => Some(Options::NormalSolve),
            3 => Some(Options::LogNormal),
            -1 => Some(Options::ControlOFF),
            _ => None,
        }
    }

    proof fn lemma_code_injective(a: Self, b: Self) {
    }
}

#[allow(non_camel_case_types)]
#[derive(Clone, Copy, Debug, PartialEq, Eq, Structural)]
pub enum RandomModes {
    Gaussian,
    Uniform,
    LogNormal,
}

impl EngineEnum for RandomModes {
    open spec fn spec_code(&self) -> i32 {
        match self {
            RandomModes::Gaussian => 1,
            RandomModes::Uniform => 2,
            RandomModes::LogNormal => 3,
        }
    }

    fn code(&self) -> (r: i32) {
        match self {
            RandomModes::Gaussian => 1,
            RandomModes::Uniform => 2,
            RandomModes::LogNormal => 3,
        }
    }

    fn from_code(code: i32) -> (r: Option<Self>) {
        match code {
            1 => Some(RandomModes::Gaussian),
            2 => Some(RandomModes::Uniform),
            3 => Some(RandomModes::LogNormal),
            _ => None,
        }
    }

    proof fn lemma_code_injective(a: Self, b: Self) {
    }
}

#[allow(non_camel_case_types)]
#[derive(Clone, Copy, Debug, PartialEq, Eq, Structural)]
pub enum SolutionAlgorithms {
    NormalSolve,
    NewtonSolve,
}

impl EngineEnum for SolutionAlgorithms {
    open spec fn spec_code(&self) -> i32 {
        match self {
            SolutionAlgorithms::NormalSolve => 0,
            SolutionAlgorithms::NewtonSolve => 1,
        }
    }

    fn code(&self) -> (r: i32) {
        match self {
            SolutionAlgorithms::NormalSolve => 0,
            SolutionAlgorithms::NewtonSolve => 1,
        }
    }

    fn from_code(code: i32) -> (r: Option<Self>) {
        match code {
            0 => Some(SolutionAlgorithms::NormalSolve),
            1 => Some(SolutionAlgorithms::NewtonSolve),
            _ => None,
        }
    }

    proof fn lemma_code_injective(a: Self, b: Self) {
    }
}

#[allow(non_camel_case_types)]
#[derive(Clone, Copy, Debug, PartialEq, Eq, Structural)]
pub enum SolutionLoadModels {
    PowerFlow,
    Admittance,
}

impl EngineEnum for SolutionLoadModels {
    open spec fn spec_code(&self) -> i32 {
        match self {
            SolutionLoadModels::PowerFlow => 1,
            SolutionLoadModels::Admittance => 2,
        }
    }

    fn code(&self) -> (r: i32) {
        match self {
            SolutionLoadModels::PowerFlow => 1,
            SolutionLoadModels::Admittance => 2,
        }
    }

    fn from_code(code: i32) -> (r: Option<Self>) {
        match code {
            1 => Some(SolutionLoadModels::PowerFlow),
            2 => Some(SolutionLoadModels::Admittance),
            _ => None,
        }
    }

    proof fn lemma_code_injective(a: Self, b: Self) {
    }
}

#[allow(non_camel_case_types)]
#[derive(Clone, Copy, Debug, PartialEq, Eq, Structural)]
pub enum SolveModes {
    SnapShot,
    Daily,
    Yearly,
    Monte1,
    LD1,
    PeakDay,
    DutyCycle,
    Direct,
    MonteFault,
    FaultStudy,
    Monte2,
    Monte3,
    LD2,
    AutoAdd,
    Dynamic,
    Harmonic,
    Time,
    HarmonicT,
}

impl EngineEnum for SolveModes {
    open spec fn spec_code(&self) -> i32 {
        match self {
            SolveModes::SnapShot => 0,
            SolveModes::Daily => 1,
            SolveModes::Yearly => 2,
            SolveModes::Monte1 => 3,
            SolveModes::LD1 => 4,
            SolveModes::PeakDay => 5,
            SolveModes::DutyCycle => 6,
            SolveModes::Direct => 7,
            SolveModes::MonteFault => 8,
            SolveModes::FaultStudy => 9,
            SolveModes::Monte2 => 10,
            SolveModes::Monte3 => 11,
            SolveModes::LD2 => 12,
            SolveModes::AutoAdd => 13,
            SolveModes::Dynamic => 14,
            SolveModes::Harmonic => 15,
            SolveModes::Time => 16,
            SolveModes::HarmonicT => 17,
        }
    }

    fn code(&self) -> (r: i32) {
        match self {
            SolveModes::SnapShot => 0,
            SolveModes::Daily => 1,
            SolveModes::Yearly => 2,
            SolveModes::Monte1 => 3,
            SolveModes::LD1 => 4,
            SolveModes::PeakDay => 5,
            SolveModes::DutyCycle => 6,
            SolveModes::Direct => 7,
            SolveModes::MonteFault => 8,
            SolveModes::FaultStudy => 9,
            SolveModes::Monte2 => 10,
            SolveModes::Monte3 => 11,
            SolveModes::LD2 => 12,
            SolveModes::AutoAdd => 13,
            SolveModes::Dynamic => 14,
            SolveModes::Harmonic => 15,
            SolveModes::Time => 16,
            SolveModes::HarmonicT => 17,
        }
    }

    fn from_code(code: i32) -> (r: Option<Self>) {
        match code {
            0 => Some(SolveModes::SnapShot),
            1 => Some(SolveModes::Daily),
            2 => Some(SolveModes::Yearly),
            3 => Some(SolveModes::Monte1),
            4 => Some(SolveModes::LD1),
            5 => Some(SolveModes::PeakDay),
            6 => Some(SolveModes::DutyCycle),
            7 => Some(SolveModes::Direct),
            8 => Some(SolveModes::MonteFault),
            9 => Some(SolveModes::FaultStudy),
            10 => Some(SolveModes::Monte2),
            11 => Some(SolveModes::Monte3),
            12 => Some(SolveModes::LD2),
            13 => Some(SolveModes::AutoAdd),
            14 => Some(SolveModes::Dynamic),
            15 => Some(SolveModes::Harmonic),
            16 => Some(SolveModes::Time),
            17 => Some(SolveModes::HarmonicT),
            _ => None,
        }
    }

    proof fn lemma_code_injective(a: Self, b: Self) {
    }
}

#[allow(non_camel_case_types)]
#[derive(Clone, Copy, Debug, PartialEq, Eq, Structural)]
pub enum SparseSolverOptions {
    ReuseNothing,
    ReuseCompressedMatrix,
    ReuseSymbolicFactorization,
    ReuseNumericFactorization,
    AlwaysResetYPrimInvalid,
}

impl EngineEnum for SparseSolverOptions {
    open spec fn spec_code(&self) -> i32 {
        match self {
            SparseSolverOptions::ReuseNothing => 0,
            SparseSolverOptions::ReuseCompressedMatrix => 1,
            SparseSolverOptions::ReuseSymbolicFactorization => 2,
            SparseSolverOptions::ReuseNumericFactorization => 3,
            SparseSolverOptions::AlwaysResetYPrimInvalid => 268435456,
        }
    }

    fn code(&self) -> (r: i32) {
        match self {
            SparseSolverOptions::ReuseNothing => 0,
            SparseSolverOptions::ReuseCompressedMatrix => 1,
            SparseSolverOptions::ReuseSymbolicFactorization => 2,
            SparseSolverOptions::ReuseNumericFactorization => 3,
            SparseSolverOptions::AlwaysResetYPrimInvalid => 268435456,
        }
    }

    fn from_code(code: i32) -> (r: Option<Self>) {
        match code {
            0 => Some(SparseSolverOptions::ReuseNothing),
            1 => Some(SparseSolverOptions::ReuseCompressedMatrix),
            2 => Some(SparseSolverOptions::ReuseSymbolicFactorization),
            3 => Some(SparseSolverOptions::ReuseNumericFactorization),
            268435456 => Some(SparseSolverOptions::AlwaysResetYPrimInvalid),
            _ => None,
        }
    }

    proof fn lemma_code_injective(a: Self, b: Self) {
    }
}

#[allow(non_camel_case_types)]
#[derive(Clone, Copy, Debug, PartialEq, Eq, Structural)]
pub enum YMatrixModes {
    SeriesOnly,
    WholeMatrix,
}

impl EngineEnum for YMatrixModes {
    open spec fn spec_code(&self) -> i32 {
        match self {
            YMatrixModes::SeriesOnly => 1,
            YMatrixModes::WholeMatrix => 2,
        }
    }

    fn code(&self) -> (r: i32) {
        match self {
            YMatrixModes::SeriesOnly => 1,
            YMatrixModes::WholeMatrix => 2,
        }
    }

    fn from_code(code: i32) -> (r: Option<Self>) {
        match code {
            1 => Some(YMatrixModes::SeriesOnly),
            2 => Some(YMatrixModes::WholeMatrix),
            _ => None,
        }
    }

    proof fn lemma_code_injective(a: Self, b: Self) {
    }
}

/// Some value of the enumeration `E` stands for `raw`.
pub open spec fn known_code<E: EngineEnum>(raw: i32) -> bool {
    exists|e: E| #[trigger] e.spec_code() == raw
}

/// Checked reading of an engine integer as an enumeration value: an integer
/// that no value stands for is refused, never reinterpreted.
pub fn decode_enum<E: EngineEnum>(raw: i32) -> (r: Result<E, DSSError>)
    ensures
        r matches Ok(e) ==> e.spec_code() == raw,
        r is Ok <==> known_code::<E>(raw),
        r is Err ==> fails_with(r, ErrorKind::Marshaling),
{
    match E::from_code(raw) {
        Some(e) => Ok(e),
        None => Err(DSSError::raised(ErrorKind::Marshaling, "Value out of range for an enumeration")),
    }
}

/// Checked reading of the integer buffer as enumeration values, in order;
/// refused if any element is outside the enumeration.
pub fn decode_enum_array<E: EngineEnum>(data: &[i32]) -> (r: Result<Vec<E>, DSSError>)
    ensures
        r is Ok <==> forall|i: int| 0 <= i < data@.len() ==> #[trigger] known_code::<E>(data@[i]),
        r matches Ok(v) ==> v@.len() == data@.len() && forall|i: int|
            0 <= i < data@.len() ==> #[trigger] v@[i].spec_code() == data@[i],
        r is Err ==> fails_with(r, ErrorKind::Marshaling),
{
    let mut out: Vec<E> = Vec::with_capacity(data.len());
    let mut i: usize = 0;
    while i < data.len()
        invariant
            i <= data.len(),
            out@.len() == i,
            forall|j: int| 0 <= j < i ==> #[trigger] out@[j].spec_code() == data@[j],
        decreases data.len() - i,
    {
        match E::from_code(data[i]) {
            Some(e) => out.push(e),
            None => {
                proof {
                    assert(!known_code::<E>(data@[i as int]));
                }
                return Err(
                    DSSError::raised(ErrorKind::Marshaling, "Value out of range for an enumeration"),
                );
            },
        }
        i = i + 1;
    }
    proof {
        assert forall|j: int| 0 <= j < data@.len() implies #[trigger] known_code::<E>(data@[j]) by {
            assert(out@[j].spec_code() == data@[j]);
        }
    }
    Ok(out)
}

/// The engine integers for a sequence of enumeration values, in order.
pub fn encode_enum_array<E: EngineEnum>(values: &[E]) -> (r: Vec<i32>)
    ensures
        r@.len() == values@.len(),
        forall|i: int| 0 <= i < values@.len() ==> #[trigger] r@[i] == values@[i].spec_code(),
{
    let mut out: Vec<i32> = Vec::with_capacity(values.len());
    let mut i: usize = 0;
    while i < values.len()
        invariant
            i <= values.len(),
            out@.len() == i,
            forall|j: int| 0 <= j < i ==> #[trigger] out@[j] == values@[j].spec_code(),
        decreases values.len() - i,
    {
        out.push(values[i].code());
        i = i + 1;
    }
    out
}

impl DSSContext {
    /// An integer result of an engine call read as an enumeration value, once
    /// the error flag has been consumed; see `DSSContext::DSSError` for `flag`
    /// and `description`.
    pub fn GetEnum<E: EngineEnum>(&self, flag: &mut i32, description: String, raw: i32) -> (r:
        Result<E, DSSError>)
        ensures
            !(self.state() == ContextState::Active && *old(flag) == 0) ==> refused_before_read(
                self.state(),
                *old(flag),
                description@,
                r,
            ),
            self.state() == ContextState::Active && *old(flag) == 0 ==> {
                &&& r is Ok <==> known_code::<E>(raw)
                &&& r is Ok ==> r->Ok_0.spec_code() == raw
                &&& r is Err ==> fails_with(r, ErrorKind::Marshaling)
            },
            *final(flag) == flag_after(self.state(), *old(flag)),
    {
        self.DSSError(flag, description)?;
        decode_enum(raw)
    }

    /// The integer buffer after an engine call read as enumeration values, in
    /// order, refused whole if any element is outside the enumeration. The
    /// buffer is read only once the error flag and the count have been checked;
    /// see `DSSContext::GetInt32ArrayGR` for the parameters.
    pub fn GetEnumArrayGR<'a, E: EngineEnum, F: FnOnce(usize) -> &'a [i32]>(
        &self,
        flag: &mut i32,
        description: String,
        count: i32,
        data: usize,
        read: F,
    ) -> (r: Result<Vec<E>, DSSError>)
        requires
            readable(self.state(), *old(flag), count, data) ==> read.requires((count as usize,)),
        ensures
            !readable(self.state(), *old(flag), count, data) ==> refused_before_read(
                self.state(),
                *old(flag),
                description@,
                r,
            ),
            readable(self.state(), *old(flag), count, data) ==> exists|s: &[i32]|
                #[trigger] read.ensures((count as usize,), s) && enum_array_outcome(s@, r),
            *final(flag) == flag_after(self.state(), *old(flag)),
    {
        let n = self.checked_read(flag, description, count, data)?;
        let s = read(n);
        decode_enum_array(s)
    }
}

/// What reading `raw` as enumeration values gave: the values, in order, when
/// every integer is known, a marshaling error otherwise.
pub open spec fn enum_array_outcome<E: EngineEnum>(raw: Seq<i32>, r: Result<Vec<E>, DSSError>) -> bool {
    match r {
        Ok(v) => (forall|i: int| 0 <= i < raw.len() ==> #[trigger] known_code::<E>(raw[i]))
            && v@.len() == raw.len() && forall|i: int|
            0 <= i < raw.len() ==> #[trigger] v@[i].spec_code() == raw[i],
        Err(e) => !(forall|i: int| 0 <= i < raw.len() ==> #[trigger] known_code::<E>(raw[i]))
            && e.kind == ErrorKind::Marshaling,
    }
}

} // verus!
