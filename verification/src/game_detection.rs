//! Game detection for OoT, MM, and OoTMM combined ROMs.
//!
//! OoTMM creates a single combined ROM that merges both games. Detection uses
//! the combo context addresses (which game is active), scene ID ranges, and
//! the ROM header's game code.

use byteorder::ByteOrder;
use vstd::prelude::*;

pub mod mm_scenes;
pub mod oot_scenes;

verus! {

/// OoTMM combo context address for OoT game mode detection.
/// When this address contains a non-zero value, OoT is the active game.
pub const OOTMM_OOT_CONTEXT_ADDR: u32 = 0x80006584;

/// OoTMM combo context address for MM game mode detection.
/// When this address contains a non-zero value, MM is the active game.
pub const OOTMM_MM_CONTEXT_ADDR: u32 = 0x80098280;

/// Maximum scene ID for OoT (inclusive).
pub const OOT_MAX_SCENE_ID: u8 = 0x65;

/// Maximum scene ID for MM (inclusive).
pub const MM_MAX_SCENE_ID: u8 = 0x70;

/// N64 RDRAM base address.
pub const RDRAM_BASE: u32 = 0x80000000;

/// RAM size (8 MB).
pub const RAM_SIZE: usize = 0x80_0000;

/// Offset of the OoT scene ID byte in RAM.
pub const OOT_SCENE_ID_OFFSET: usize = 0x1c8545;

/// Offset of the MM scene ID byte in RAM.
pub const MM_SCENE_ID_OFFSET: usize = 0x1ef674;

/// The type of game/ROM being tracked.
#[derive(Debug, Clone, Copy, PartialEq, Eq, Hash, Structural)]
pub enum GameType {
    /// Standalone Ocarina of Time ROM
    StandaloneOoT,
    /// Standalone Majora's Mask ROM
    StandaloneMM,
    /// OoTMM combined ROM (both games in one)
    OoTMMCombo,
}

impl GameType {
    /// Returns true if this is a standalone game (not OoTMM combo).
    pub fn is_standalone(&self) -> (r: bool)
        ensures
            r == (*self == GameType::StandaloneOoT || *self == GameType::StandaloneMM),
    {
        match self {
            GameType::StandaloneOoT | GameType::StandaloneMM => true,
            GameType::OoTMMCombo => false,
        }
    }

    /// Returns true if this is the OoTMM combo ROM.
    pub fn is_combo(&self) -> (r: bool)
        ensures
            r == (*self == GameType::OoTMMCombo),
    {
        match self {
            GameType::OoTMMCombo => true,
            _ => false,
        }
    }

    /// Returns true if this game type includes OoT gameplay.
    pub fn has_oot(&self) -> (r: bool)
        ensures
            r == (*self == GameType::StandaloneOoT || *self == GameType::OoTMMCombo),
    {
        match self {
            GameType::StandaloneOoT | GameType::OoTMMCombo => true,
            GameType::StandaloneMM => false,
        }
    }

    /// Returns true if this game type includes MM gameplay.
    pub fn has_mm(&self) -> (r: bool)
        ensures
            r == (*self == GameType::StandaloneMM || *self == GameType::OoTMMCombo),
    {
        match self {
            GameType::StandaloneMM | GameType::OoTMMCombo => true,
            GameType::StandaloneOoT => false,
        }
    }

    /// The human-readable name of the game type.
    pub fn display_name(&self) -> (s: &'static str)
        ensures
            s@ == (match *self {
                GameType::StandaloneOoT => "Ocarina of Time"@,
                GameType::StandaloneMM => "Majora's Mask"@,
                GameType::OoTMMCombo => "OoTMM Combo"@,
            }),
    {
        match self {
            GameType::StandaloneOoT => "Ocarina of Time",
            GameType::StandaloneMM => "Majora's Mask",
            GameType::OoTMMCombo => "OoTMM Combo",
        }
    }
}

impl Default for GameType {
    fn default() -> (r: Self)
        ensures
            r == GameType::StandaloneOoT,
    {
        GameType::StandaloneOoT
    }
}

/// Law: every game type is either standalone or the combo, never both, and
/// every game type includes at least one of the two games.
pub proof fn lemma_game_type_classification(t: GameType)
    ensures
        (t == GameType::StandaloneOoT || t == GameType::StandaloneMM) != (t == GameType::OoTMMCombo),
        (t == GameType::StandaloneOoT || t == GameType::OoTMMCombo) || (t == GameType::StandaloneMM
            || t == GameType::OoTMMCombo),
        (t == GameType::OoTMMCombo) == ((t == GameType::StandaloneOoT || t == GameType::OoTMMCombo)
            && (t == GameType::StandaloneMM || t == GameType::OoTMMCombo)),
{
}

/// The currently active game in an OoTMM combo ROM.
#[derive(Debug, Clone, Copy, PartialEq, Eq, Hash, Structural)]
pub enum ActiveGame {
    /// Ocarina of Time is currently active
    OcarinaOfTime,
    /// Majora's Mask is currently active
    MajorasMask,
}

impl ActiveGame {
    /// Returns true if OoT is currently active.
    pub fn is_oot(&self) -> (r: bool)
        ensures
            r == (*self == ActiveGame::OcarinaOfTime),
    {
        match self {
            ActiveGame::OcarinaOfTime => true,
            ActiveGame::MajorasMask => false,
        }
    }

    /// Returns true if MM is currently active.
    pub fn is_mm(&self) -> (r: bool)
        ensures
            r == (*self == ActiveGame::MajorasMask),
    {
        match self {
            ActiveGame::OcarinaOfTime => false,
            ActiveGame::MajorasMask => true,
        }
    }

    /// The short human-readable name of the game.
    pub fn display_name(&self) -> (s: &'static str)
        ensures
            s@ == (match *self {
                ActiveGame::OcarinaOfTime => "OoT"@,
                ActiveGame::MajorasMask => "MM"@,
            }),
    {
        match self {
            ActiveGame::OcarinaOfTime => "OoT",
            ActiveGame::MajorasMask => "MM",
        }
    }
}

impl Default for ActiveGame {
    fn default() -> (r: Self)
        ensures
            r == ActiveGame::OcarinaOfTime,
    {
        ActiveGame::OcarinaOfTime
    }
}

/// Game transition state for OoTMM.
#[derive(Debug, Clone, Copy, PartialEq, Eq, Hash, Structural)]
pub enum TransitionState {
    /// No transition in progress, game is stable
    Stable,
    /// Transitioning from OoT to MM
    OotToMm,
    /// Transitioning from MM to OoT
    MmToOot,
}

/// The game a transition starts from, if any.
pub open spec fn spec_source_game(t: TransitionState) -> Option<ActiveGame> {
    match t {
        TransitionState::Stable => None,
        TransitionState::OotToMm => Some(ActiveGame::OcarinaOfTime),
        TransitionState::MmToOot => Some(ActiveGame::MajorasMask),
    }
}

/// The game a transition leads to, if any.
pub open spec fn spec_destination_game(t: TransitionState) -> Option<ActiveGame> {
    match t {
        TransitionState::Stable => None,
        TransitionState::OotToMm => Some(ActiveGame::MajorasMask),
        TransitionState::MmToOot => Some(ActiveGame::OcarinaOfTime),
    }
}

impl TransitionState {
    /// Returns true if a game transition is in progress.
    pub fn is_transitioning(&self) -> (r: bool)
        ensures
            r == (*self != TransitionState::Stable),
    {
        match self {
            TransitionState::Stable => false,
            _ => true,
        }
    }

    /// Returns the source game of the transition, if any.
    pub fn source_game(&self) -> (r: Option<ActiveGame>)
        ensures
            r == spec_source_game(*self),
    {
        match self {
            TransitionState::Stable => None,
            TransitionState::OotToMm => Some(ActiveGame::OcarinaOfTime),
            TransitionState::MmToOot => Some(ActiveGame::MajorasMask),
        }
    }

    /// Returns the destination game of the transition, if any.
    pub fn destination_game(&self) -> (r: Option<ActiveGame>)
        ensures
            r == spec_destination_game(*self),
    {
        match self {
            TransitionState::Stable => None,
            TransitionState::OotToMm => Some(ActiveGame::MajorasMask),
            TransitionState::MmToOot => Some(ActiveGame::OcarinaOfTime),
        }
    }
}

impl Default for TransitionState {
    fn default() -> (r: Self)
        ensures
            r == TransitionState::Stable,
    {
        TransitionState::Stable
    }
}

/// Law: a transition is in progress exactly when it has a source and a
/// destination game, and a transition always leads to the other game.
pub proof fn lemma_transition_endpoints(t: TransitionState)
    ensures
        (t != TransitionState::Stable) == spec_source_game(t).is_some(),
        (t != TransitionState::Stable) == spec_destination_game(t).is_some(),
        t != TransitionState::Stable ==> spec_source_game(t)->0 != spec_destination_game(t)->0,
{
}

// ============================================================================
// Detection Result
// ============================================================================

/// Result of game detection from memory.
///
/// The confidence of the detection is kept as a whole percentage (0 - 100).
#[derive(Debug, Clone, Copy, PartialEq, Eq, Structural)]
pub struct GameDetectionResult {
    /// The detected game type
    pub game_type: GameType,
    /// The currently active game (only meaningful for OoTMMCombo)
    pub active_game: ActiveGame,
    /// Current transition state
    pub transition_state: TransitionState,
    /// Current scene ID
    pub scene_id: u8,
    /// Confidence level of the detection, in percent (0 - 100)
    pub confidence_percent: u8,
}

impl GameDetectionResult {
    /// Create a new detection result for standalone OoT.
    pub fn standalone_oot(scene_id: u8) -> (r: Self)
        ensures
            r == (GameDetectionResult {
                game_type: GameType::StandaloneOoT,
                active_game: ActiveGame::OcarinaOfTime,
                transition_state: TransitionState::Stable,
                scene_id,
                confidence_percent: 100,
            }),
    {
        GameDetectionResult {
            game_type: GameType::StandaloneOoT,
            active_game: ActiveGame::OcarinaOfTime,
            transition_state: TransitionState::Stable,
            scene_id,
            confidence_percent: 100,
        }
    }

    /// Create a new detection result for standalone MM.
    pub fn standalone_mm(scene_id: u8) -> (r: Self)
        ensures
            r == (GameDetectionResult {
                game_type: GameType::StandaloneMM,
                active_game: ActiveGame::MajorasMask,
                transition_state: TransitionState::Stable,
                scene_id,
                confidence_percent: 100,
            }),
    {
        GameDetectionResult {
            game_type: GameType::StandaloneMM,
            active_game: ActiveGame::MajorasMask,
            transition_state: TransitionState::Stable,
            scene_id,
            confidence_percent: 100,
        }
    }

    /// Create a new detection result for OoTMM combo.
    pub fn combo(active_game: ActiveGame, scene_id: u8, transition_state: TransitionState) -> (r:
        Self)
        ensures
            r == (GameDetectionResult {
                game_type: GameType::OoTMMCombo,
                active_game,
                transition_state,
                scene_id,
                confidence_percent: 100,
            }),
    {
        GameDetectionResult {
            game_type: GameType::OoTMMCombo,
            active_game,
            transition_state,
            scene_id,
            confidence_percent: 100,
        }
    }

    /// Create a detection result with a specific confidence level (in percent),
    /// clamped to at most 100.
    pub fn with_confidence(self, percent: u8) -> (r: Self)
        ensures
            r == (GameDetectionResult {
                confidence_percent: if percent > 100 { 100 } else { percent },
                ..self
            }),
    {
        let mut result = self;
        result.confidence_percent = if percent > 100 { 100 } else { percent };
        result
    }

    /// Returns true if the player is currently in OoT.
    pub fn is_in_oot(&self) -> (r: bool)
        ensures
            r == (self.active_game == ActiveGame::OcarinaOfTime),
    {
        self.active_game.is_oot()
    }

    /// Returns true if the player is currently in MM.
    pub fn is_in_mm(&self) -> (r: bool)
        ensures
            r == (self.active_game == ActiveGame::MajorasMask),
    {
        self.active_game.is_mm()
    }
}

impl Default for GameDetectionResult {
    fn default() -> (r: Self)
        ensures
            r == (GameDetectionResult {
                game_type: GameType::StandaloneOoT,
                active_game: ActiveGame::OcarinaOfTime,
                transition_state: TransitionState::Stable,
                scene_id: 0,
                confidence_percent: 100,
            }),
    {
        Self::standalone_oot(0)
    }
}

// ============================================================================
// Reading RAM
// ============================================================================

/// Offset in the RAM buffer of the OoTMM combo context word for OoT.
pub const OOT_CONTEXT_OFFSET: usize = 0x6584;

/// Offset in the RAM buffer of the OoTMM combo context word for MM.
pub const MM_CONTEXT_OFFSET: usize = 0x98280;

/// The value of four bytes read as a big-endian unsigned integer.
pub open spec fn be_u32(b0: u8, b1: u8, b2: u8, b3: u8) -> int {
    b0 * 0x1000000 + b1 * 0x10000 + b2 * 0x100 + b3
}

/// The big-endian 32-bit word at `offset` in `ram`.
pub open spec fn spec_word_at(ram: Seq<u8>, offset: int) -> int {
    be_u32(ram[offset], ram[offset + 1], ram[offset + 2], ram[offset + 3])
}

/// Reads the big-endian 32-bit word at `offset` of `ram`.
///
/// Trusted: calls `byteorder::BigEndian::read_u32` on the four bytes starting
/// at `offset`; its source builds the value with `u32::from_be_bytes`, which
/// is the big-endian value stated here.
#[verifier::external_body]
fn read_be_u32_at(ram: &[u8], offset: usize) -> (r: u32)
    requires
        offset + 4 <= ram@.len(),
    ensures
        r as int == spec_word_at(ram@, offset as int),
{
    byteorder::BigEndian::read_u32(&ram[offset..offset + 4])
}

// ============================================================================
// Game Detector
// ============================================================================

/// The abstract state of a [`GameDetector`].
#[derive(Debug, Clone, Copy, PartialEq, Eq, Structural)]
pub struct DetectorModel {
    /// The known game type
    pub game_type: GameType,
    /// The last detected active game
    pub active_game: ActiveGame,
    /// The last known scene ID
    pub scene_id: u8,
    /// Current transition state
    pub transition_state: TransitionState,
    /// Number of detections since the last game change
    pub frames_since_change: u32,
}

/// Handles game detection and transition tracking for OoT, MM, and OoTMM.
#[derive(Debug, Clone, Copy)]
pub struct GameDetector {
    /// The known game type (set during initialization or ROM detection)
    game_type: GameType,
    /// The last detected active game
    last_active_game: ActiveGame,
    /// The last known scene ID
    last_scene_id: u8,
    /// Current transition state
    transition_state: TransitionState,
    /// Number of frames since last game change
    frames_since_change: u32,
}

impl View for GameDetector {
    type V = DetectorModel;

    closed spec fn view(&self) -> DetectorModel {
        DetectorModel {
            game_type: self.game_type,
            active_game: self.last_active_game,
            scene_id: self.last_scene_id,
            transition_state: self.transition_state,
            frames_since_change: self.frames_since_change,
        }
    }
}

/// The game that is active according to the scene ID fallback: OoT when the
/// OoT scene byte holds a valid OoT scene (the Happy Mask Shop included),
/// otherwise the last known game.
pub open spec fn spec_active_game_by_scene(last: ActiveGame, ram: Seq<u8>) -> ActiveGame {
    let scene = ram[OOT_SCENE_ID_OFFSET as int];
    if scene == oot_scenes::HAPPY_MASK_SHOP || scene <= OOT_MAX_SCENE_ID {
        ActiveGame::OcarinaOfTime
    } else {
        last
    }
}

/// The game that is active in a combo ROM: decided by the combo context
/// words when exactly one of them is set, by the scene fallback otherwise.
pub open spec fn spec_combo_active_game(last: ActiveGame, ram: Seq<u8>) -> ActiveGame {
    let oot = spec_word_at(ram, OOT_CONTEXT_OFFSET as int);
    let mm = spec_word_at(ram, MM_CONTEXT_OFFSET as int);
    if oot != 0 && mm == 0 {
        ActiveGame::OcarinaOfTime
    } else if mm != 0 && oot == 0 {
        ActiveGame::MajorasMask
    } else {
        spec_active_game_by_scene(last, ram)
    }
}

/// The transition state after a detection: a change of game is a transition
/// away from the old game; staying at a game's transition scene announces a
/// transition towards the other game.
pub open spec fn spec_transition(last: ActiveGame, last_scene: u8, new: ActiveGame) -> TransitionState {
    if new == last {
        if new == ActiveGame::OcarinaOfTime && last_scene == oot_scenes::HAPPY_MASK_SHOP {
            TransitionState::OotToMm
        } else if new == ActiveGame::MajorasMask && last_scene == mm_scenes::CLOCK_TOWER {
            TransitionState::MmToOot
        } else {
            TransitionState::Stable
        }
    } else {
        match (last, new) {
            (ActiveGame::OcarinaOfTime, ActiveGame::MajorasMask) => TransitionState::OotToMm,
            (ActiveGame::MajorasMask, ActiveGame::OcarinaOfTime) => TransitionState::MmToOot,
            _ => TransitionState::Stable,
        }
    }
}

/// The scene ID byte of the given game in RAM.
pub open spec fn spec_scene_of(game: ActiveGame, ram: Seq<u8>) -> u8 {
    match game {
        ActiveGame::OcarinaOfTime => ram[OOT_SCENE_ID_OFFSET as int],
        ActiveGame::MajorasMask => ram[MM_SCENE_ID_OFFSET as int],
    }
}

/// One detection step: the detector state afterwards and the reported result.
pub open spec fn spec_detect(m: DetectorModel, ram: Seq<u8>) -> (DetectorModel, GameDetectionResult) {
    if ram.len() < RAM_SIZE {
        (
            m,
            GameDetectionResult {
                game_type: GameType::StandaloneOoT,
                active_game: ActiveGame::OcarinaOfTime,
                transition_state: TransitionState::Stable,
                scene_id: 0,
                confidence_percent: 0,
            },
        )
    } else {
        match m.game_type {
            GameType::StandaloneOoT => {
                let scene = ram[OOT_SCENE_ID_OFFSET as int];
                (
                    DetectorModel {
                        scene_id: scene,
                        frames_since_change: (m.frames_since_change + 1) as u32,
                        ..m
                    },
                    GameDetectionResult {
                        game_type: GameType::StandaloneOoT,
                        active_game: ActiveGame::OcarinaOfTime,
                        transition_state: TransitionState::Stable,
                        scene_id: scene,
                        confidence_percent: 100,
                    },
                )
            },
            GameType::StandaloneMM => {
                let scene = ram[MM_SCENE_ID_OFFSET as int];
                (
                    DetectorModel {
                        scene_id: scene,
                        frames_since_change: (m.frames_since_change + 1) as u32,
                        ..m
                    },
                    GameDetectionResult {
                        game_type: GameType::StandaloneMM,
                        active_game: ActiveGame::MajorasMask,
                        transition_state: TransitionState::Stable,
                        scene_id: scene,
                        confidence_percent: 100,
                    },
                )
            },
            GameType::OoTMMCombo => {
                let new = spec_combo_active_game(m.active_game, ram);
                let t = spec_transition(m.active_game, m.scene_id, new);
                let scene = spec_scene_of(new, ram);
                let from_context = spec_word_at(ram, OOT_CONTEXT_OFFSET as int) != 0
                    || spec_word_at(ram, MM_CONTEXT_OFFSET as int) != 0;
                (
                    DetectorModel {
                        game_type: m.game_type,
                        active_game: new,
                        scene_id: scene,
                        transition_state: t,
                        frames_since_change: if new != m.active_game {
                            0
                        } else {
                            (m.frames_since_change + 1) as u32
                        },
                    },
                    GameDetectionResult {
                        game_type: GameType::OoTMMCombo,
                        active_game: new,
                        transition_state: t,
                        scene_id: scene,
                        confidence_percent: if from_context { 100 } else { 70 },
                    },
                )
            },
        }
    }
}

impl GameDetector {
    /// Create a new game detector (assumes standalone OoT).
    pub fn new() -> (d: Self)
        ensures
            d@ == (DetectorModel {
                game_type: GameType::StandaloneOoT,
                active_game: ActiveGame::OcarinaOfTime,
                scene_id: 0,
                transition_state: TransitionState::Stable,
                frames_since_change: 0,
            }),
    {
        GameDetector {
            game_type: GameType::StandaloneOoT,
            last_active_game: ActiveGame::OcarinaOfTime,
            last_scene_id: 0,
            transition_state: TransitionState::Stable,
            frames_since_change: 0,
        }
    }

    /// Create a new game detector with a known game type.
    pub fn with_game_type(game_type: GameType) -> (d: Self)
        ensures
            d@ == (DetectorModel {
                game_type,
                active_game: if game_type == GameType::StandaloneMM {
                    ActiveGame::MajorasMask
                } else {
                    ActiveGame::OcarinaOfTime
                },
                scene_id: 0,
                transition_state: TransitionState::Stable,
                frames_since_change: 0,
            }),
    {
        let active_game = match game_type {
            GameType::StandaloneOoT | GameType::OoTMMCombo => ActiveGame::OcarinaOfTime,
            GameType::StandaloneMM => ActiveGame::MajorasMask,
        };
        GameDetector {
            game_type,
            last_active_game: active_game,
            last_scene_id: 0,
            transition_state: TransitionState::Stable,
            frames_since_change: 0,
        }
    }

    /// Set the game type; switching to standalone MM makes MM the active game.
    pub fn set_game_type(&mut self, game_type: GameType)
        ensures
            final(self)@ == (DetectorModel {
                game_type,
                active_game: if game_type == GameType::StandaloneMM {
                    ActiveGame::MajorasMask
                } else {
                    old(self)@.active_game
                },
                ..old(self)@
            }),
    {
        self.game_type = game_type;
        if game_type == GameType::StandaloneMM {
            self.last_active_game = ActiveGame::MajorasMask;
        }
    }

    /// Get the current game type.
    pub fn game_type(&self) -> (r: GameType)
        ensures
            r == self@.game_type,
    {
        self.game_type
    }

    /// Get the last detected active game.
    pub fn active_game(&self) -> (r: ActiveGame)
        ensures
            r == self@.active_game,
    {
        self.last_active_game
    }

    /// Get the current transition state.
    pub fn transition_state(&self) -> (r: TransitionState)
        ensures
            r == self@.transition_state,
    {
        self.transition_state
    }

    /// Number of detections since the active game last changed.
    pub fn frames_since_change(&self) -> (r: u32)
        ensures
            r == self@.frames_since_change,
    {
        self.frames_since_change
    }

    /// Detect the active game from RAM data.
    ///
    /// For OoTMM combo ROMs this checks the combo context addresses; for
    /// standalone games it reports the known game type. RAM shorter than
    /// [`RAM_SIZE`] gives the default result with zero confidence and leaves
    /// the detector unchanged.
    pub fn detect_from_ram(&mut self, ram: &[u8]) -> (r: GameDetectionResult)
        requires
            ram@.len() >= RAM_SIZE ==> old(self)@.frames_since_change < u32::MAX,
        ensures
            (final(self)@, r) == spec_detect(old(self)@, ram@),
    {
        if ram.len() < RAM_SIZE {
            return GameDetectionResult::default().with_confidence(0);
        }
        match self.game_type {
            GameType::StandaloneOoT => self.detect_standalone_oot(ram),
            GameType::StandaloneMM => self.detect_standalone_mm(ram),
            GameType::OoTMMCombo => self.detect_combo(ram),
        }
    }

    /// Detect active game for standalone OoT.
    fn detect_standalone_oot(&mut self, ram: &[u8]) -> (r: GameDetectionResult)
        requires
            ram@.len() >= RAM_SIZE,
            ram@.len() >= RAM_SIZE ==> old(self)@.frames_since_change < u32::MAX,
            old(self)@.game_type == GameType::StandaloneOoT,
        ensures
            (final(self)@, r) == spec_detect(old(self)@, ram@),
    {
        let scene_id = ram[OOT_SCENE_ID_OFFSET];
        self.last_scene_id = scene_id;
        self.frames_since_change = self.frames_since_change + 1;
        GameDetectionResult::standalone_oot(scene_id)
    }

    /// Detect active game for standalone MM.
    fn detect_standalone_mm(&mut self, ram: &[u8]) -> (r: GameDetectionResult)
        requires
            ram@.len() >= RAM_SIZE,
            ram@.len() >= RAM_SIZE ==> old(self)@.frames_since_change < u32::MAX,
            old(self)@.game_type == GameType::StandaloneMM,
        ensures
            (final(self)@, r) == spec_detect(old(self)@, ram@),
    {
        let scene_id = ram[MM_SCENE_ID_OFFSET];
        self.last_scene_id = scene_id;
        self.frames_since_change = self.frames_since_change + 1;
        GameDetectionResult::standalone_mm(scene_id)
    }

    /// Detect active game for OoTMM combo ROM.
    fn detect_combo(&mut self, ram: &[u8]) -> (r: GameDetectionResult)
        requires
            ram@.len() >= RAM_SIZE,
            ram@.len() >= RAM_SIZE ==> old(self)@.frames_since_change < u32::MAX,
            old(self)@.game_type == GameType::OoTMMCombo,
        ensures
            (final(self)@, r) == spec_detect(old(self)@, ram@),
    {
        let oot_context_value = read_be_u32_at(ram, OOT_CONTEXT_OFFSET);
        let mm_context_value = read_be_u32_at(ram, MM_CONTEXT_OFFSET);

        let new_active_game = if oot_context_value != 0 && mm_context_value == 0 {
            ActiveGame::OcarinaOfTime
        } else if mm_context_value != 0 && oot_context_value == 0 {
            ActiveGame::MajorasMask
        } else {
            self.detect_active_game_by_scene(ram)
        };

        let transition_state = self.detect_transition(new_active_game);

        let old_active_game = self.last_active_game;
        self.last_active_game = new_active_game;
        self.transition_state = transition_state;

        if new_active_game != old_active_game {
            self.frames_since_change = 0;
        } else {
            self.frames_since_change = self.frames_since_change + 1;
        }

        let scene_id = match new_active_game {
            ActiveGame::OcarinaOfTime => ram[OOT_SCENE_ID_OFFSET],
            ActiveGame::MajorasMask => ram[MM_SCENE_ID_OFFSET],
        };
        self.last_scene_id = scene_id;

        let confidence: u8 = if oot_context_value != 0 || mm_context_value != 0 {
            100
        } else {
            70
        };

        GameDetectionResult::combo(new_active_game, scene_id, transition_state).with_confidence(
            confidence,
        )
    }

    /// Detect active game using scene ID ranges (fallback method).
    fn detect_active_game_by_scene(&self, ram: &[u8]) -> (r: ActiveGame)
        requires
            ram@.len() >= RAM_SIZE,
        ensures
            r == spec_active_game_by_scene(self@.active_game, ram@),
    {
        let oot_scene_id = ram[OOT_SCENE_ID_OFFSET];
        if oot_scene_id == oot_scenes::HAPPY_MASK_SHOP {
            return ActiveGame::OcarinaOfTime;
        }
        if is_valid_oot_scene(oot_scene_id) {
            return ActiveGame::OcarinaOfTime;
        }
        self.last_active_game
    }

    /// Detect transition state based on scene changes.
    fn detect_transition(&self, new_active_game: ActiveGame) -> (r: TransitionState)
        ensures
            r == spec_transition(self@.active_game, self@.scene_id, new_active_game),
    {
        if new_active_game == self.last_active_game {
            if new_active_game == ActiveGame::OcarinaOfTime && self.last_scene_id
                == oot_scenes::HAPPY_MASK_SHOP {
                return TransitionState::OotToMm;
            }
            if new_active_game == ActiveGame::MajorasMask && self.last_scene_id
                == mm_scenes::CLOCK_TOWER {
                return TransitionState::MmToOot;
            }
            return TransitionState::Stable;
        }
        match (self.last_active_game, new_active_game) {
            (ActiveGame::OcarinaOfTime, ActiveGame::MajorasMask) => TransitionState::OotToMm,
            (ActiveGame::MajorasMask, ActiveGame::OcarinaOfTime) => TransitionState::MmToOot,
            _ => TransitionState::Stable,
        }
    }

    /// Check if a scene ID represents a transition point between games.
    pub fn is_transition_scene(&self, scene_id: u8, active_game: ActiveGame) -> (r: bool)
        ensures
            r == (match active_game {
                ActiveGame::OcarinaOfTime => scene_id == oot_scenes::HAPPY_MASK_SHOP,
                ActiveGame::MajorasMask => scene_id == mm_scenes::CLOCK_TOWER,
            }),
    {
        match active_game {
            ActiveGame::OcarinaOfTime => scene_id == oot_scenes::HAPPY_MASK_SHOP,
            ActiveGame::MajorasMask => scene_id == mm_scenes::CLOCK_TOWER,
        }
    }
}

impl Default for GameDetector {
    fn default() -> (d: Self)
        ensures
            d@ == (DetectorModel {
                game_type: GameType::StandaloneOoT,
                active_game: ActiveGame::OcarinaOfTime,
                scene_id: 0,
                transition_state: TransitionState::Stable,
                frames_since_change: 0,
            }),
    {
        Self::new()
    }
}

/// Law: detection on RAM shorter than [`RAM_SIZE`] changes nothing and
/// reports zero confidence.
pub proof fn lemma_short_ram_changes_nothing(m: DetectorModel, ram: Seq<u8>)
    requires
        ram.len() < RAM_SIZE,
    ensures
        spec_detect(m, ram).0 == m,
        spec_detect(m, ram).1.confidence_percent == 0,
{
}

/// Law: the detection result always agrees with the detector state that
/// follows it (game type, active game, transition state and scene), and the
/// game type never changes by detecting.
pub proof fn lemma_detect_result_matches_state(m: DetectorModel, ram: Seq<u8>)
    requires
        ram.len() >= RAM_SIZE,
        m.game_type == GameType::OoTMMCombo || (m.game_type == GameType::StandaloneOoT
            && m.active_game == ActiveGame::OcarinaOfTime) || (m.game_type == GameType::StandaloneMM
            && m.active_game == ActiveGame::MajorasMask),
    ensures
        spec_detect(m, ram).0.game_type == m.game_type,
        spec_detect(m, ram).1.game_type == m.game_type,
        spec_detect(m, ram).1.active_game == spec_detect(m, ram).0.active_game,
        spec_detect(m, ram).1.scene_id == spec_detect(m, ram).0.scene_id,
        m.game_type == GameType::OoTMMCombo ==> spec_detect(m, ram).1.transition_state
            == spec_detect(m, ram).0.transition_state,
        spec_detect(m, ram).1.confidence_percent <= 100,
{
}

/// Law: in a combo ROM, a change of the active game is always reported as the
/// transition from the old game to the new one, and resets the frame counter.
pub proof fn lemma_game_change_is_transition(m: DetectorModel, ram: Seq<u8>)
    requires
        ram.len() >= RAM_SIZE,
        m.game_type == GameType::OoTMMCombo,
        spec_detect(m, ram).0.active_game != m.active_game,
    ensures
        spec_source_game(spec_detect(m, ram).0.transition_state) == Some(m.active_game),
        spec_destination_game(spec_detect(m, ram).0.transition_state) == Some(
            spec_detect(m, ram).0.active_game,
        ),
        spec_detect(m, ram).0.frames_since_change == 0,
{
}

/// Whether one of the four bytes of the OoT context word (RAM offset 0x6584)
/// is set.
pub open spec fn spec_oot_context_set(ram: Seq<u8>) -> bool {
    ram[0x6584] != 0 || ram[0x6585] != 0 || ram[0x6586] != 0 || ram[0x6587] != 0
}

/// Whether one of the four bytes of the MM context word (RAM offset 0x98280)
/// is set.
pub open spec fn spec_mm_context_set(ram: Seq<u8>) -> bool {
    ram[0x98280] != 0 || ram[0x98281] != 0 || ram[0x98282] != 0 || ram[0x98283] != 0
}

/// Law: in a combo ROM, the game a detection reports is OoT when only the OoT
/// context word is set and MM when only the MM context word is set;
/// otherwise it is OoT when the OoT scene byte (offset 0x1c8545) holds an OoT
/// scene (at most 0x65) or the Happy Mask Shop (0x2D), and the previous game
/// else. The reported scene is the scene byte of that game (offset 0x1c8545
/// for OoT, 0x1ef674 for MM), the detector keeps game and scene, and the
/// confidence is full exactly when a context word is set.
pub proof fn lemma_combo_active_game(m: DetectorModel, ram: Seq<u8>)
    requires
        ram.len() >= RAM_SIZE,
        m.game_type == GameType::OoTMMCombo,
        m.frames_since_change < u32::MAX,
    ensures
        ({
            let (next, r) = spec_detect(m, ram);
            let oot = spec_oot_context_set(ram);
            let mm = spec_mm_context_set(ram);
            let scene = ram[0x1c8545];
            &&& oot && !mm ==> r.active_game == ActiveGame::OcarinaOfTime
            &&& mm && !oot ==> r.active_game == ActiveGame::MajorasMask
            &&& oot == mm ==> r.active_game == (if scene <= 0x65 || scene == 0x2D {
                ActiveGame::OcarinaOfTime
            } else {
                m.active_game
            })
            &&& r.active_game == ActiveGame::OcarinaOfTime ==> r.scene_id == ram[0x1c8545]
            &&& r.active_game == ActiveGame::MajorasMask ==> r.scene_id == ram[0x1ef674]
            &&& next.active_game == r.active_game && next.scene_id == r.scene_id
            &&& r.game_type == GameType::OoTMMCombo && next.game_type == GameType::OoTMMCombo
            &&& r.confidence_percent == (if oot || mm { 100u8 } else { 70u8 })
            &&& next.frames_since_change == (if r.active_game == m.active_game {
                m.frames_since_change + 1
            } else {
                0
            })
        }),
{
    assert((spec_word_at(ram, OOT_CONTEXT_OFFSET as int) != 0) == spec_oot_context_set(ram));
    assert((spec_word_at(ram, MM_CONTEXT_OFFSET as int) != 0) == spec_mm_context_set(ram));
}

/// Law: in a combo ROM, the transition state after a detection is a function
/// of the previous game, the previous scene and the new game: staying in OoT
/// after standing in the Happy Mask Shop (scene 0x2D) announces the OoT to
/// MM transition, staying in MM after standing in the Clock Tower (scene
/// 0x6C) announces the MM to OoT transition, staying anywhere else is
/// stable, and switching games is the transition from the old game to the
/// new one. The result and the detector state agree on it.
pub proof fn lemma_combo_transition_state(m: DetectorModel, ram: Seq<u8>)
    requires
        ram.len() >= RAM_SIZE,
        m.game_type == GameType::OoTMMCombo,
    ensures
        ({
            let (next, r) = spec_detect(m, ram);
            let stay = r.active_game == m.active_game;
            &&& stay && m.active_game == ActiveGame::OcarinaOfTime && m.scene_id == 0x2D
                ==> r.transition_state == TransitionState::OotToMm
            &&& stay && m.active_game == ActiveGame::MajorasMask && m.scene_id == 0x6C
                ==> r.transition_state == TransitionState::MmToOot
            &&& stay && !(m.active_game == ActiveGame::OcarinaOfTime && m.scene_id == 0x2D) && !(
            m.active_game == ActiveGame::MajorasMask && m.scene_id == 0x6C)
                ==> r.transition_state == TransitionState::Stable
            &&& m.active_game == ActiveGame::OcarinaOfTime && r.active_game == ActiveGame::MajorasMask
                ==> r.transition_state == TransitionState::OotToMm
            &&& m.active_game == ActiveGame::MajorasMask && r.active_game == ActiveGame::OcarinaOfTime
                ==> r.transition_state == TransitionState::MmToOot
            &&& next.transition_state == r.transition_state
        }),
{
}

/// Law: a standalone ROM always reports its own game, at the scene byte of
/// that game, stable and with full confidence; the detector records the
/// scene and keeps everything else but the frame counter.
pub proof fn lemma_standalone_detection(m: DetectorModel, ram: Seq<u8>)
    requires
        ram.len() >= RAM_SIZE,
        m.game_type != GameType::OoTMMCombo,
        m.frames_since_change < u32::MAX,
    ensures
        ({
            let (next, r) = spec_detect(m, ram);
            &&& m.game_type == GameType::StandaloneOoT ==> r.active_game == ActiveGame::OcarinaOfTime
                && r.scene_id == ram[0x1c8545]
            &&& m.game_type == GameType::StandaloneMM ==> r.active_game == ActiveGame::MajorasMask
                && r.scene_id == ram[0x1ef674]
            &&& r.game_type == m.game_type
            &&& r.transition_state == TransitionState::Stable
            &&& r.confidence_percent == 100
            &&& next.scene_id == r.scene_id
            &&& next.game_type == m.game_type && next.active_game == m.active_game
            &&& next.transition_state == m.transition_state
            &&& next.frames_since_change == m.frames_since_change + 1
        }),
{
}

/// Law: the game code of a ROM header (bytes 0x3B to 0x3E) decides its game
/// type: "CZLE", "CZLJ" and "CZLP" (the Ocarina of Time releases) give
/// standalone OoT, "NZSE", "NZSJ" and "NZSP" (the Majora's Mask releases)
/// give standalone MM; a header shorter than 0x40 bytes gives nothing; any
/// other game code gives the combo exactly when the name area holds
/// "OOTMM", and nothing otherwise.
pub proof fn lemma_rom_game_codes(h: Seq<u8>)
    ensures
        h.len() < 0x40 ==> spec_rom_game_type(h) is None,
        h.len() >= 0x40 && h[0x3B] == 0x43 && h[0x3C] == 0x5A && h[0x3D] == 0x4C && (h[0x3E] == 0x45
            || h[0x3E] == 0x4A || h[0x3E] == 0x50) ==> spec_rom_game_type(h) == Some(GameType::StandaloneOoT),
        h.len() >= 0x40 && h[0x3B] == 0x4E && h[0x3C] == 0x5A && h[0x3D] == 0x53 && (h[0x3E] == 0x45
            || h[0x3E] == 0x4A || h[0x3E] == 0x50) ==> spec_rom_game_type(h) == Some(GameType::StandaloneMM),
        h.len() >= 0x40 && !(h[0x3B] == 0x43 && h[0x3C] == 0x5A && h[0x3D] == 0x4C && (h[0x3E] == 0x45
            || h[0x3E] == 0x4A || h[0x3E] == 0x50)) && !(h[0x3B] == 0x4E && h[0x3C] == 0x5A && h[0x3D]
            == 0x53 && (h[0x3E] == 0x45 || h[0x3E] == 0x4A || h[0x3E] == 0x50)) ==> spec_rom_game_type(h)
            == (if spec_has_ootmm_name(h) {
            Some(GameType::OoTMMCombo)
        } else {
            None
        }),
{
    if h.len() >= 0x40 {
        let c = spec_game_code(h);
        assert(c =~= seq![h[0x3B], h[0x3C], h[0x3D], h[0x3E]]);
        let oot = h[0x3B] == 0x43 && h[0x3C] == 0x5A && h[0x3D] == 0x4C && (h[0x3E] == 0x45 || h[0x3E]
            == 0x4A || h[0x3E] == 0x50);
        let mmc = h[0x3B] == 0x4E && h[0x3C] == 0x5A && h[0x3D] == 0x53 && (h[0x3E] == 0x45 || h[0x3E]
            == 0x4A || h[0x3E] == 0x50);
        if !oot {
            assert(c != seq![0x43u8, 0x5Au8, 0x4Cu8, 0x45u8]) by {
                if c == seq![0x43u8, 0x5Au8, 0x4Cu8, 0x45u8] { assert(c[0] == 0x43 && c[1] == 0x5A && c[2] == 0x4C && c[3] == 0x45); }
            }
            assert(c != seq![0x43u8, 0x5Au8, 0x4Cu8, 0x4Au8]) by {
                if c == seq![0x43u8, 0x5Au8, 0x4Cu8, 0x4Au8] { assert(c[0] == 0x43 && c[1] == 0x5A && c[2] == 0x4C && c[3] == 0x4A); }
            }
            assert(c != seq![0x43u8, 0x5Au8, 0x4Cu8, 0x50u8]) by {
                if c == seq![0x43u8, 0x5Au8, 0x4Cu8, 0x50u8] { assert(c[0] == 0x43 && c[1] == 0x5A && c[2] == 0x4C && c[3] == 0x50); }
            }
        }
        if !mmc {
            assert(c != seq![0x4Eu8, 0x5Au8, 0x53u8, 0x45u8]) by {
                if c == seq![0x4Eu8, 0x5Au8, 0x53u8, 0x45u8] { assert(c[0] == 0x4E && c[1] == 0x5A && c[2] == 0x53 && c[3] == 0x45); }
            }
            assert(c != seq![0x4Eu8, 0x5Au8, 0x53u8, 0x4Au8]) by {
                if c == seq![0x4Eu8, 0x5Au8, 0x53u8, 0x4Au8] { assert(c[0] == 0x4E && c[1] == 0x5A && c[2] == 0x53 && c[3] == 0x4A); }
            }
            assert(c != seq![0x4Eu8, 0x5Au8, 0x53u8, 0x50u8]) by {
                if c == seq![0x4Eu8, 0x5Au8, 0x53u8, 0x50u8] { assert(c[0] == 0x4E && c[1] == 0x5A && c[2] == 0x53 && c[3] == 0x50); }
            }
        }
    }
}

/// Law: a header of at least 0x40 bytes names the combo exactly when the
/// bytes "OOTMM" (0x4F 0x4F 0x54 0x4D 0x4D) start somewhere from byte 0x20
/// to byte 0x2F, that is lie within the name area 0x20 to 0x33.
pub proof fn lemma_ootmm_name(h: Seq<u8>, i: int)
    requires
        h.len() >= 0x40,
    ensures
        0x20 <= i <= 0x2F && h[i] == 0x4F && h[i + 1] == 0x4F && h[i + 2] == 0x54 && h[i + 3] == 0x4D && h[i + 4]
            == 0x4D ==> spec_has_ootmm_name(h),
        spec_has_ootmm_name(h) ==> exists|j: int|
            0x20 <= j <= 0x2F && #[trigger] h[j] == 0x4F && h[j + 1] == 0x4F && h[j + 2] == 0x54 && h[j + 3] == 0x4D
                && h[j + 4] == 0x4D,
{
    if 0x20 <= i <= 0x2F && h[i] == 0x4F && h[i + 1] == 0x4F && h[i + 2] == 0x54 && h[i + 3] == 0x4D && h[i + 4]
        == 0x4D {
        assert(h.subrange(i, i + 5) =~= ootmm_tag());
    }
    if spec_has_ootmm_name(h) {
        let j = choose|j: int| 0x20 <= j && j + 5 <= 0x34 && #[trigger] h.subrange(j, j + 5) == ootmm_tag();
        let t = h.subrange(j, j + 5);
        assert(t[0] == h[j] && t[1] == h[j + 1] && t[2] == h[j + 2] && t[3] == h[j + 3] && t[4] == h[j + 4]);
        assert(ootmm_tag()[0] == 0x4F && ootmm_tag()[2] == 0x54 && ootmm_tag()[4] == 0x4D);
        assert(h[j] == 0x4F);
    }
}

// ============================================================================
// Helper Functions
// ============================================================================

/// Check if a scene ID is valid for OoT.
pub fn is_valid_oot_scene(scene_id: u8) -> (r: bool)
    ensures
        r == (scene_id <= OOT_MAX_SCENE_ID),
{
    scene_id <= OOT_MAX_SCENE_ID
}

/// Check if a scene ID is valid for MM.
pub fn is_valid_mm_scene(scene_id: u8) -> (r: bool)
    ensures
        r == (scene_id <= MM_MAX_SCENE_ID),
{
    scene_id <= MM_MAX_SCENE_ID
}

/// The OoT dungeon scenes.
pub open spec fn spec_is_oot_dungeon_scene(scene_id: u8) -> bool {
    scene_id <= oot_scenes::GANONS_CASTLE && scene_id != oot_scenes::THIEVES_HIDEOUT
}

/// Check if a scene ID is a dungeon in OoT.
pub fn is_oot_dungeon_scene(scene_id: u8) -> (r: bool)
    ensures
        r == spec_is_oot_dungeon_scene(scene_id),
{
    scene_id == oot_scenes::DEKU_TREE || scene_id == oot_scenes::DODONGOS_CAVERN || scene_id
        == oot_scenes::JABU_JABUS_BELLY || scene_id == oot_scenes::FOREST_TEMPLE || scene_id
        == oot_scenes::FIRE_TEMPLE || scene_id == oot_scenes::WATER_TEMPLE || scene_id
        == oot_scenes::SPIRIT_TEMPLE || scene_id == oot_scenes::SHADOW_TEMPLE || scene_id
        == oot_scenes::BOTTOM_OF_THE_WELL || scene_id == oot_scenes::ICE_CAVERN || scene_id
        == oot_scenes::GANONS_CASTLE_TOWER || scene_id == oot_scenes::GERUDO_TRAINING_GROUND
        || scene_id == oot_scenes::GANONS_CASTLE
}

/// Check if a scene ID is a dungeon in MM.
pub fn is_mm_dungeon_scene(scene_id: u8) -> (r: bool)
    ensures
        r == (scene_id == mm_scenes::WOODFALL_TEMPLE || scene_id == mm_scenes::SNOWHEAD_TEMPLE
            || scene_id == mm_scenes::GREAT_BAY_TEMPLE || scene_id == mm_scenes::STONE_TOWER_TEMPLE
            || scene_id == mm_scenes::STONE_TOWER_TEMPLE_INVERTED || scene_id
            == mm_scenes::MAJORAS_LAIR),
{
    scene_id == mm_scenes::WOODFALL_TEMPLE || scene_id == mm_scenes::SNOWHEAD_TEMPLE || scene_id
        == mm_scenes::GREAT_BAY_TEMPLE || scene_id == mm_scenes::STONE_TOWER_TEMPLE || scene_id
        == mm_scenes::STONE_TOWER_TEMPLE_INVERTED || scene_id == mm_scenes::MAJORAS_LAIR
}

// ============================================================================
// ROM header detection
// ============================================================================

/// The four-byte game code of a ROM header (bytes 0x3B to 0x3E).
pub open spec fn spec_game_code(h: Seq<u8>) -> Seq<u8> {
    h.subrange(0x3B, 0x3F)
}

/// The bytes of the text "OOTMM".
pub open spec fn ootmm_tag() -> Seq<u8> {
    seq![0x4Fu8, 0x4Fu8, 0x54u8, 0x4Du8, 0x4Du8]
}

/// Whether the ROM name area (bytes 0x20 to 0x33) contains "OOTMM".
pub open spec fn spec_has_ootmm_name(h: Seq<u8>) -> bool {
    exists|i: int| 0x20 <= i && i + 5 <= 0x34 && #[trigger] h.subrange(i, i + 5) == ootmm_tag()
}

/// The game type that a ROM header announces, if any.
pub open spec fn spec_rom_game_type(h: Seq<u8>) -> Option<GameType> {
    if h.len() < 0x40 {
        None
    } else {
        let c = spec_game_code(h);
        if c == seq![0x43u8, 0x5Au8, 0x4Cu8, 0x45u8] || c == seq![0x43u8, 0x5Au8, 0x4Cu8, 0x4Au8]
            || c == seq![0x43u8, 0x5Au8, 0x4Cu8, 0x50u8] {
            // "CZLE", "CZLJ", "CZLP"
            Some(GameType::StandaloneOoT)
        } else if c == seq![0x4Eu8, 0x5Au8, 0x53u8, 0x45u8] || c == seq![
            0x4Eu8,
            0x5Au8,
            0x53u8,
            0x4Au8,
        ] || c == seq![0x4Eu8, 0x5Au8, 0x53u8, 0x50u8] {
            // "NZSE", "NZSJ", "NZSP"
            Some(GameType::StandaloneMM)
        } else if spec_has_ootmm_name(h) {
            Some(GameType::OoTMMCombo)
        } else {
            None
        }
    }
}

/// Detect game type from ROM header data.
pub fn detect_game_type_from_rom(rom_header: &[u8]) -> (r: Option<GameType>)
    ensures
        r == spec_rom_game_type(rom_header@),
{
    if rom_header.len() < 0x40 {
        return None;
    }
    let c0 = rom_header[0x3B];
    let c1 = rom_header[0x3C];
    let c2 = rom_header[0x3D];
    let c3 = rom_header[0x3E];
    let ghost code = spec_game_code(rom_header@);
    assert(code =~= seq![c0, c1, c2, c3]);
    // "CZL?" and "NZS?" game codes
    if c0 == 0x43 && c1 == 0x5A && c2 == 0x4C && (c3 == 0x45 || c3 == 0x4A || c3 == 0x50) {
        Some(GameType::StandaloneOoT)
    } else if c0 == 0x4E && c1 == 0x5A && c2 == 0x53 && (c3 == 0x45 || c3 == 0x4A || c3 == 0x50) {
        Some(GameType::StandaloneMM)
    } else if is_ootmm_rom_header(rom_header) {
        Some(GameType::OoTMMCombo)
    } else {
        None
    }
}

/// Check if ROM header indicates an OoTMM combo ROM ("OOTMM" in the name).
fn is_ootmm_rom_header(rom_header: &[u8]) -> (r: bool)
    requires
        rom_header@.len() >= 0x40,
    ensures
        r == spec_has_ootmm_name(rom_header@),
{
    let mut i: usize = 0x20;
    while i + 5 <= 0x34
        invariant
            0x20 <= i <= 0x30,
            rom_header@.len() >= 0x40,
            forall|j: int| 0x20 <= j < i ==> #[trigger] rom_header@.subrange(j, j + 5) != ootmm_tag(),
        decreases 0x34 - i,
    {
        if rom_header[i] == 0x4F && rom_header[i + 1] == 0x4F && rom_header[i + 2] == 0x54
            && rom_header[i + 3] == 0x4D && rom_header[i + 4] == 0x4D {
            assert(rom_header@.subrange(i as int, i + 5) =~= ootmm_tag());
            return true;
        }
        assert(rom_header@.subrange(i as int, i + 5)[0] == rom_header@[i as int]);
        assert(rom_header@.subrange(i as int, i + 5)[1] == rom_header@[i + 1]);
        assert(rom_header@.subrange(i as int, i + 5)[2] == rom_header@[i + 2]);
        assert(rom_header@.subrange(i as int, i + 5)[3] == rom_header@[i + 3]);
        assert(rom_header@.subrange(i as int, i + 5)[4] == rom_header@[i + 4]);
        i = i + 1;
    }
    false
}

} // verus!
