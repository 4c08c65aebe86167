//! Prebuilt text-to-speech voices.
use vstd::prelude::*;

verus! {

/// Bright.
pub const ZEPHYR: &'static str = "Zephyr";

/// Upbeat.
pub const PUCK: &'static str = "Puck";

/// Informative.
pub const CHARON: &'static str = "Charon";

/// Firm.
pub const KORE: &'static str = "Kore";

/// Excitable.
pub const FENRIR: &'static str = "Fenrir";

/// Youthful.
pub const LEDA: &'static str = "Leda";

/// Firm.
pub const ORUS: &'static str = "Orus";

/// Breezy.
pub const AOEDE: &'static str = "Aoede";

/// Easy-going.
pub const CALLIRRHOE: &'static str = "Callirrhoe";

/// Bright.
pub const AUTONOE: &'static str = "Autonoe";

/// Breathy.
pub const ENCELADUS: &'static str = "Enceladus";

/// Clear.
pub const IAPETUS: &'static str = "Iapetus";

/// Easy-going.
pub const UMBRIEL: &'static str = "Umbriel";

/// Smooth.
pub const ALGIEBA: &'static str = "Algieba";

/// Smooth.
pub const DESPINA: &'static str = "Despina";

/// Clear.
pub const ERINOME: &'static str = "Erinome";

/// Gravelly.
pub const ALGENIB: &'static str = "Algenib";

/// Informative.
pub const RASALGETHI: &'static str = "Rasalgethi";

/// Upbeat.
pub const LAOMEDEIA: &'static str = "Laomedeia";

/// Soft.
pub const ACHERNAR: &'static str = "Achernar";

/// Firm.
pub const ALNILAM: &'static str = "Alnilam";

/// Even.
pub const SCHEDAR: &'static str = "Schedar";

/// Mature.
pub const GACRUX: &'static str = "Gacrux";

/// Forward.
pub const PULCHERRIMA: &'static str = "Pulcherrima";

/// Friendly.
pub const ACHIRD: &'static str = "Achird";

/// Casual.
pub const ZUBENELGENUBI: &'static str = "Zubenelgenubi";

/// Gentle.
pub const VINDEMIATRIX: &'static str = "Vindemiatrix";

/// Lively.
pub const SADACHBIA: &'static str = "Sadachbia";

/// Knowledgeable.
pub const SADALTAGER: &'static str = "Sadaltager";

/// Warm.
pub const SULAFAT: &'static str = "Sulafat";

} // verus!
