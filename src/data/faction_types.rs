//! Faction vocabulary: codes, roles, protocol states and ability descriptors.

use vstd::prelude::*;

verus! {

/// Organizational unit.
#[derive(Clone, Copy, Debug, PartialEq, Eq, Hash, Structural)]
pub enum FactionCode {
    CRC,
    TMO,
    TTG,
    TDPC,
    Svartseils,
    SBSGYB,
    Custom(u32),
}

/// Conceptual resonance core.
#[derive(Clone, Copy, Debug, PartialEq, Eq, Hash, Structural)]
pub enum CRCType {
    AS,
    GAR,
    MEDAT,
}

/// Dialogue register used by abilities.
#[allow(non_camel_case_types)]
#[derive(Clone, Copy, Debug, PartialEq, Eq, Structural)]
pub enum LinguisticMode {
    EULP_AA,
    LIPAA,
    LUPLR,
    CaribbeanPatois,
    Visual,
    Meta,
    Mixed,
    Faction,
    Dynamic,
}

/// Foundational axiom.
#[derive(Clone, Copy, Debug, PartialEq, Eq, Hash, Structural)]
pub enum FoundationalAxiom {
    FA1,
    FA2,
    FA3,
    FA4,
}

/// Altitude and focus of an analysis.
#[derive(Clone, Copy, Debug, PartialEq, Eq, Structural)]
pub enum DAFPMode {
    PointBlankAcuity,
    StrategicHorizon,
    JuxtapositionSynthesis,
    Concurrent,
}

/// Architectural style of a district.
#[derive(Clone, Copy, Debug, PartialEq, Eq, Structural)]
pub enum ArchitecturalStyle {
    BaroqueSensuality,
    NeoClassicalArchive,
    GothicCathedral,
    InnerCitadel,
    Custom,
}

/// Shader variant of a district.
#[derive(Clone, Copy, Debug, PartialEq, Eq, Structural)]
pub enum ShaderVariant {
    TMOAmberVeins,
    TTGClockGears,
    TDPCDivineFire,
    TriumvirateAura,
    Standard,
}

/// A faction leader, linked to an entity of the game data.
#[derive(Clone, Debug)]
pub struct Matriarch {
    pub entity_id: u32,
    pub name: String,
    pub title: String,
    pub crc_type: Option<CRCType>,
    pub faction: FactionCode,
    pub linguistic_mode: LinguisticMode,
    pub signature_technique: SignatureTechnique,
    pub supernatural_markers: Vec<String>,
}

/// A leader's signature technique.
#[derive(Clone, Debug)]
pub struct SignatureTechnique {
    pub name: String,
    pub description: String,
    pub fa_focus: Vec<FoundationalAxiom>,
    pub dafp_preference: DAFPMode,
    /// Cooldown in game turns.
    pub cooldown: u32,
    pub power_cost: i32,
}

/// Operational state of a district.
#[derive(Clone, Copy, Debug, PartialEq, Eq, Structural)]
pub enum DistrictState {
    Dormant,
    EntrySequence,
    Active,
    Complete,
    Handoff,
    Error,
}

/// Roles of the three cores in a supporting-resonance operation.
#[derive(Clone, Copy, Debug, PartialEq, Eq, Structural)]
pub struct TSRPState {
    pub leader: Option<CRCType>,
    pub orackla_role: TSRPRole,
    pub umeko_role: TSRPRole,
    pub lysandra_role: TSRPRole,
}

/// Role of one core in a supporting-resonance operation.
#[derive(Clone, Copy, Debug, PartialEq, Eq, Structural)]
pub enum TSRPRole {
    Leading,
    Supporting(SupportContribution),
    Inactive,
}

/// Kind of support a core contributes.
#[derive(Clone, Copy, Debug, PartialEq, Eq, Structural)]
pub enum SupportContribution {
    StrategicVision,
    StructuralValidation,
    AxiomaticGrounding,
    EmpatheticCalibration,
    CreativeFlexibility,
    AestheticDiscipline,
}

/// Progress of a parallel-execution operation.
#[derive(Clone, Copy, Debug, PartialEq, Eq, Structural)]
pub struct TPEFState {
    pub lysandra_path: PathState,
    pub umeko_path: PathState,
    pub orackla_path: PathState,
    /// Whose turn it is: 1, 2 or 3.
    pub current_turn: u32,
    pub synthesis_complete: bool,
}

/// Progress of one path of a parallel-execution operation.
#[derive(Clone, Copy, Debug, PartialEq, Eq, Structural)]
pub enum PathState {
    NotStarted,
    InProgress { completion_pct: u8 },
    Complete,
    Failed { reason_code: u32 },
}

/// Whom an ability targets.
#[derive(Clone, Copy, Debug, PartialEq, Eq, Structural)]
pub enum TargetMode {
    Self_,
    SingleAlly,
    SingleEnemy,
    AllAllies,
    AllEnemies,
    Area { radius: u32 },
    PS,
}

/// Damage type of an ability.
#[derive(Clone, Copy, Debug, PartialEq, Eq, Structural)]
pub enum DamageType {
    Physical,
    Conceptual,
    Seductive,
    Purifying,
    Axiological,
}

/// Status effect of an ability.
#[derive(Clone, Copy, Debug, PartialEq, Eq, Structural)]
pub enum StatusEffect {
    Seduced,
    Exposed,
    Purified,
    Fortified,
    Dissonant,
    Transcendent,
}

/// Lending of a capability from one leader to an entity.
#[derive(Clone, Debug)]
pub struct MMPSLend {
    pub capability: String,
    pub from_matriarch: u32,
    pub from_district: Option<String>,
    pub to_entity: u32,
    pub to_location: Option<String>,
    pub duration: LendDuration,
}

/// How long a lent capability stays lent.
#[derive(Clone, Copy, Debug, PartialEq, Eq, Structural)]
pub enum LendDuration {
    Temporary,
    Session,
    Permanent,
}

/// Siphoning of a capability from a leader.
#[derive(Clone, Debug)]
pub struct MMPSSiphon {
    pub capability: String,
    pub from_matriarch: u32,
    pub from_district: Option<String>,
    pub force: SiphonForce,
    pub invade_district: Option<String>,
}

/// Force of a siphoning.
#[derive(Clone, Copy, Debug, PartialEq, Eq, Structural)]
pub enum SiphonForce {
    Gentle,
    Brutal,
}

} // verus!
