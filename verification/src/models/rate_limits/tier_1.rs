//! Tier 1 rate limits of common models.
use vstd::prelude::*;
use super::RateLimit;

verus! {

/// Gemini 3 Pro Preview.
pub fn gemini_3_pro() -> (r: RateLimit)
    ensures
        r == (RateLimit { rpm: 50, tpm: 1000000, rpd: 1000, batch_tokens: 50000000 }),
{
    RateLimit { rpm: 50, tpm: 1000000, rpd: 1000, batch_tokens: 50000000 }
}

/// Gemini 2.5 Pro.
pub fn gemini_2_5_pro() -> (r: RateLimit)
    ensures
        r == (RateLimit { rpm: 150, tpm: 2000000, rpd: 10000, batch_tokens: 5000000 }),
{
    RateLimit { rpm: 150, tpm: 2000000, rpd: 10000, batch_tokens: 5000000 }
}

/// Gemini 2.5 Flash.
pub fn gemini_2_5_flash() -> (r: RateLimit)
    ensures
        r == (RateLimit { rpm: 1000, tpm: 1000000, rpd: 10000, batch_tokens: 3000000 }),
{
    RateLimit { rpm: 1000, tpm: 1000000, rpd: 10000, batch_tokens: 3000000 }
}

/// Gemini 2.5 Flash-Lite (unlimited requests per day).
pub fn gemini_2_5_flash_lite() -> (r: RateLimit)
    ensures
        r == (RateLimit { rpm: 4000, tpm: 4000000, rpd: 0, batch_tokens: 10000000 }),
{
    RateLimit { rpm: 4000, tpm: 4000000, rpd: 0, batch_tokens: 10000000 }
}

/// Gemini 2.0 Flash (unlimited requests per day).
pub fn gemini_2_0_flash() -> (r: RateLimit)
    ensures
        r == (RateLimit { rpm: 2000, tpm: 4000000, rpd: 0, batch_tokens: 10000000 }),
{
    RateLimit { rpm: 2000, tpm: 4000000, rpd: 0, batch_tokens: 10000000 }
}

/// Gemini 2.0 Flash-Lite (unlimited requests per day).
pub fn gemini_2_0_flash_lite() -> (r: RateLimit)
    ensures
        r == (RateLimit { rpm: 4000, tpm: 4000000, rpd: 0, batch_tokens: 10000000 }),
{
    RateLimit { rpm: 4000, tpm: 4000000, rpd: 0, batch_tokens: 10000000 }
}

/// Gemini 2.5 Flash Image.
pub fn gemini_2_5_flash_image() -> (r: RateLimit)
    ensures
        r == (RateLimit { rpm: 500, tpm: 500000, rpd: 2000, batch_tokens: 0 }),
{
    RateLimit { rpm: 500, tpm: 500000, rpd: 2000, batch_tokens: 0 }
}

/// Gemini 2.0 Flash Image.
pub fn gemini_2_0_flash_image() -> (r: RateLimit)
    ensures
        r == (RateLimit { rpm: 1000, tpm: 1000000, rpd: 10000, batch_tokens: 0 }),
{
    RateLimit { rpm: 1000, tpm: 1000000, rpd: 10000, batch_tokens: 0 }
}

/// Imagen 4 Standard and Fast.
pub fn imagen_4() -> (r: RateLimit)
    ensures
        r == (RateLimit { rpm: 10, tpm: 0, rpd: 70, batch_tokens: 0 }),
{
    RateLimit { rpm: 10, tpm: 0, rpd: 70, batch_tokens: 0 }
}

/// Imagen 4 Ultra.
pub fn imagen_4_ultra() -> (r: RateLimit)
    ensures
        r == (RateLimit { rpm: 5, tpm: 0, rpd: 30, batch_tokens: 0 }),
{
    RateLimit { rpm: 5, tpm: 0, rpd: 30, batch_tokens: 0 }
}

/// Imagen 3.
pub fn imagen_3() -> (r: RateLimit)
    ensures
        r == (RateLimit { rpm: 20, tpm: 0, rpd: 0, batch_tokens: 0 }),
{
    RateLimit { rpm: 20, tpm: 0, rpd: 0, batch_tokens: 0 }
}

/// Veo 3.1 and 3.
pub fn veo_3() -> (r: RateLimit)
    ensures
        r == (RateLimit { rpm: 2, tpm: 0, rpd: 10, batch_tokens: 0 }),
{
    RateLimit { rpm: 2, tpm: 0, rpd: 10, batch_tokens: 0 }
}

/// Veo 2.
pub fn veo_2() -> (r: RateLimit)
    ensures
        r == (RateLimit { rpm: 2, tpm: 0, rpd: 50, batch_tokens: 0 }),
{
    RateLimit { rpm: 2, tpm: 0, rpd: 50, batch_tokens: 0 }
}

/// Gemini Embedding.
pub fn embedding() -> (r: RateLimit)
    ensures
        r == (RateLimit { rpm: 3000, tpm: 1000000, rpd: 0, batch_tokens: 0 }),
{
    RateLimit { rpm: 3000, tpm: 1000000, rpd: 0, batch_tokens: 0 }
}

/// Gemma 3 and 3n.
pub fn gemma() -> (r: RateLimit)
    ensures
        r == (RateLimit { rpm: 30, tpm: 15000, rpd: 14400, batch_tokens: 0 }),
{
    RateLimit { rpm: 30, tpm: 15000, rpd: 14400, batch_tokens: 0 }
}

/// Gemini Robotics-ER.
pub fn robotics_er() -> (r: RateLimit)
    ensures
        r == (RateLimit { rpm: 300, tpm: 1000000, rpd: 10000, batch_tokens: 0 }),
{
    RateLimit { rpm: 300, tpm: 1000000, rpd: 10000, batch_tokens: 0 }
}

/// Gemini Computer Use.
pub fn computer_use() -> (r: RateLimit)
    ensures
        r == (RateLimit { rpm: 150, tpm: 2000000, rpd: 10000, batch_tokens: 0 }),
{
    RateLimit { rpm: 150, tpm: 2000000, rpd: 10000, batch_tokens: 0 }
}

/// Gemini 2.5 Flash TTS.
pub fn flash_tts() -> (r: RateLimit)
    ensures
        r == (RateLimit { rpm: 10, tpm: 10000, rpd: 100, batch_tokens: 0 }),
{
    RateLimit { rpm: 10, tpm: 10000, rpd: 100, batch_tokens: 0 }
}

/// Gemini 2.5 Pro TTS.
pub fn pro_tts() -> (r: RateLimit)
    ensures
        r == (RateLimit { rpm: 10, tpm: 10000, rpd: 50, batch_tokens: 0 }),
{
    RateLimit { rpm: 10, tpm: 10000, rpd: 50, batch_tokens: 0 }
}

/// Gemini 3 Pro Image.
pub fn gemini_3_image() -> (r: RateLimit)
    ensures
        r == (RateLimit { rpm: 20, tpm: 100000, rpd: 250, batch_tokens: 2000000 }),
{
    RateLimit { rpm: 20, tpm: 100000, rpd: 250, batch_tokens: 2000000 }
}

}
