//! Fixed-point gain arithmetic.
//!
//! Gains are thousandths of full scale. Multiplying two gains divides the
//! product by one thousand, so unity (`1000`) is neutral. The effective
//! volume handed to any sink is the product of the voice volume, the layer
//! master, the global master, and the ducking attenuation, with every muted
//! layer forcing zero.
use vstd::prelude::*;

verus! {

/// Product of two gains in thousandths: `a * b / 1000`, rounded down.
pub open spec fn milli_mul(a: u32, b: u32) -> int {
    (a * b) / 1000
}

/// The product grows with either factor.
pub proof fn lemma_milli_mul_mono(a1: u32, b1: u32, a2: u32, b2: u32)
    requires
        a1 <= a2,
        b1 <= b2,
    ensures
        milli_mul(a1, b1) <= milli_mul(a2, b2),
{
    assert(a1 * b1 <= a2 * b2) by (nonlinear_arith)
        requires a1 <= a2, b1 <= b2;
    assert((a1 * b1) / 1000 <= (a2 * b2) / 1000) by (nonlinear_arith)
        requires a1 * b1 <= a2 * b2;
}

/// A gain product is never negative, never exceeds the first factor while
/// the second is at most unity, and is exactly the first factor at unity.
pub proof fn lemma_milli_mul_bound(a: u32, b: u32)
    requires
        b <= 1000,
    ensures
        0 <= milli_mul(a, b),
        milli_mul(a, b) <= a,
        b == 1000 ==> milli_mul(a, b) == a,
{
    assert(0 <= a * b) by (nonlinear_arith);
    assert(a * b <= a * 1000) by (nonlinear_arith)
        requires b <= 1000;
    assert((a * b) / 1000 <= (a * 1000) / 1000) by (nonlinear_arith)
        requires a * b <= a * 1000;
    assert((a * 1000) / 1000 == a) by (nonlinear_arith);
}

/// Multiplying by zero on either side gives zero.
pub proof fn lemma_milli_mul_zero(a: u32, b: u32)
    requires
        a == 0 || b == 0,
    ensures
        milli_mul(a, b) == 0,
{
    assert(a * b == 0) by (nonlinear_arith)
        requires a == 0 || b == 0;
}

/// The two factors commute.
pub proof fn lemma_milli_mul_comm(a: u32, b: u32)
    ensures
        milli_mul(a, b) == milli_mul(b, a),
{
    assert(a * b == b * a) by (nonlinear_arith);
}

/// Executable gain product. The bound keeps the product within `u32`.
pub fn mul_milli(a: u32, b: u32) -> (r: u32)
    requires
        a <= 4000,
        b <= 4000,
    ensures
        r == milli_mul(a, b),
{
    proof {
        assert(a * b <= 4000 * 4000) by (nonlinear_arith)
            requires a <= 4000, b <= 4000;
    }
    (a * b) / 1000
}

/// Attenuation factor of the ducking stage: `1 - progress * amount` in
/// thousandths. With no progress or no configured depth it is unity.
pub open spec fn duck_factor(progress: u32, amount: u32) -> int {
    1000 - milli_mul(progress, amount)
}

/// Executable ducking factor.
pub fn duck_factor_exec(progress: u32, amount: u32) -> (r: u32)
    requires
        progress <= 1000,
        amount <= 1000,
    ensures
        r == duck_factor(progress, amount),
        r <= 1000,
        progress == 0 || amount == 0 ==> r == 1000,
{
    proof {
        lemma_milli_mul_bound(progress, amount);
        if progress == 0 || amount == 0 {
            lemma_milli_mul_zero(progress, amount);
        }
    }
    1000 - mul_milli(progress, amount)
}

/// Effective gain of the music voice: zero when the music layer or the
/// master is muted, else `music_volume * master_volume` in thousandths.
/// Ducking is applied separately by the tick that interpolates it.
pub open spec fn music_gain(
    music_volume: u32,
    master_volume: u32,
    is_muted: bool,
    is_master_muted: bool,
) -> int {
    if is_muted || is_master_muted {
        0
    } else {
        milli_mul(music_volume, master_volume)
    }
}

/// Executable music gain.
pub fn music_gain_exec(
    music_volume: u32,
    master_volume: u32,
    is_muted: bool,
    is_master_muted: bool,
) -> (r: u32)
    requires
        music_volume <= 1000,
        master_volume <= 1000,
    ensures
        r == music_gain(music_volume, master_volume, is_muted, is_master_muted),
        r <= 1000,
{
    proof {
        lemma_milli_mul_bound(music_volume, master_volume);
    }
    if is_muted || is_master_muted {
        0
    } else {
        mul_milli(music_volume, master_volume)
    }
}

/// Music gain with the ducking attenuation applied on top.
pub open spec fn ducked_music_gain(
    music_volume: u32,
    master_volume: u32,
    is_muted: bool,
    is_master_muted: bool,
    duck_progress: u32,
    duck_amount: u32,
) -> int {
    if is_muted || is_master_muted {
        0
    } else {
        milli_mul(
            milli_mul(music_volume, master_volume) as u32,
            (1000 - milli_mul(duck_progress, duck_amount)) as u32,
        )
    }
}

/// Executable ducked music gain.
pub fn ducked_music_gain_exec(
    music_volume: u32,
    master_volume: u32,
    is_muted: bool,
    is_master_muted: bool,
    duck_progress: u32,
    duck_amount: u32,
) -> (r: u32)
    requires
        music_volume <= 1000,
        master_volume <= 1000,
        duck_progress <= 1000,
        duck_amount <= 1000,
    ensures
        r == ducked_music_gain(
            music_volume,
            master_volume,
            is_muted,
            is_master_muted,
            duck_progress,
            duck_amount,
        ),
        r <= 1000,
{
    if is_muted || is_master_muted {
        0
    } else {
        proof {
            lemma_milli_mul_bound(music_volume, master_volume);
        }
        let base = mul_milli(music_volume, master_volume);
        let duck = duck_factor_exec(duck_progress, duck_amount);
        proof {
            lemma_milli_mul_bound(base, duck);
        }
        mul_milli(base, duck)
    }
}

/// Effective gain of one ambient voice with a variation multiplier in
/// thousandths (`1000` when no variation is configured): zero when the
/// ambient layer or the master is muted, else the product of the voice
/// volume, the ambient master, the global master, the variation and the
/// ducking factor.
pub open spec fn ambient_gain(
    volume: u32,
    ambient_master: u32,
    master: u32,
    is_ambient_muted: bool,
    is_master_muted: bool,
    duck_progress: u32,
    duck_amount: u32,
    variation: u32,
) -> int {
    if is_ambient_muted || is_master_muted {
        0
    } else {
        milli_mul(
            milli_mul(
                milli_mul(milli_mul(volume, ambient_master) as u32, master) as u32,
                variation,
            ) as u32,
            (1000 - milli_mul(duck_progress, duck_amount)) as u32,
        )
    }
}

/// The ambient gain with no variation configured.
pub open spec fn ambient_base_gain(
    volume: u32,
    ambient_master: u32,
    master: u32,
    is_ambient_muted: bool,
    is_master_muted: bool,
    duck_progress: u32,
    duck_amount: u32,
) -> int {
    ambient_gain(
        volume,
        ambient_master,
        master,
        is_ambient_muted,
        is_master_muted,
        duck_progress,
        duck_amount,
        1000,
    )
}

/// Every ambient sink gain is bounded: it is never negative; with the
/// variation multiplier at most `1500` it never exceeds one and a half
/// units; and — with no variation — it never exceeds the product of the
/// global master and the ambient layer master, whatever the voice volume
/// and the ducking state.
pub proof fn lemma_gain_bounds(
    volume: u32,
    ambient_master: u32,
    master: u32,
    is_ambient_muted: bool,
    is_master_muted: bool,
    duck_progress: u32,
    duck_amount: u32,
    variation: u32,
)
    requires
        volume <= 1000,
        ambient_master <= 1000,
        master <= 1000,
        duck_progress <= 1000,
        duck_amount <= 1000,
        variation <= 1500,
    ensures
        0 <= ambient_gain(
            volume,
            ambient_master,
            master,
            is_ambient_muted,
            is_master_muted,
            duck_progress,
            duck_amount,
            variation,
        ) <= 1500,
        variation == 1000 ==> ambient_gain(
            volume,
            ambient_master,
            master,
            is_ambient_muted,
            is_master_muted,
            duck_progress,
            duck_amount,
            variation,
        ) <= milli_mul(master, ambient_master),
{
    if !(is_ambient_muted || is_master_muted) {
        lemma_milli_mul_bound(volume, ambient_master);
        lemma_milli_mul_comm(volume, ambient_master);
        lemma_milli_mul_bound(ambient_master, volume);
        let va = milli_mul(volume, ambient_master) as u32;
        assert(va <= ambient_master);
        lemma_milli_mul_bound(va, master);
        let vam = milli_mul(va, master) as u32;
        assert(vam <= va);
        lemma_milli_mul_bound(vam, 1000);
        let vamx = milli_mul(vam, variation) as u32;
        assert(va * master <= ambient_master * master) by (nonlinear_arith)
            requires va <= ambient_master;
        assert((va * master) / 1000 <= (ambient_master * master) / 1000) by (nonlinear_arith)
            requires va * master <= ambient_master * master;
        lemma_milli_mul_comm(ambient_master, master);
        assert(vam <= milli_mul(master, ambient_master));
        lemma_milli_mul_mono(vam, variation, 1000, 1500);
        assert(milli_mul(1000, 1500) == 1500);
        assert(vamx <= 1500);
        lemma_milli_mul_bound(duck_progress, duck_amount);
        let d = (1000 - milli_mul(duck_progress, duck_amount)) as u32;
        assert(d <= 1000);
        lemma_milli_mul_bound(vamx, d);
        if variation == 1000 {
            lemma_milli_mul_bound(vam, variation);
            assert(vamx == vam);
        }
    }
}

/// Executable ambient gain.
pub fn ambient_gain_exec(
    volume: u32,
    ambient_master: u32,
    master: u32,
    is_ambient_muted: bool,
    is_master_muted: bool,
    duck_progress: u32,
    duck_amount: u32,
    variation: u32,
) -> (r: u32)
    requires
        volume <= 1000,
        ambient_master <= 1000,
        master <= 1000,
        duck_progress <= 1000,
        duck_amount <= 1000,
        variation <= 1500,
    ensures
        r == ambient_gain(
            volume,
            ambient_master,
            master,
            is_ambient_muted,
            is_master_muted,
            duck_progress,
            duck_amount,
            variation,
        ),
        r <= 1500,
{
    proof {
        lemma_gain_bounds(
            volume,
            ambient_master,
            master,
            is_ambient_muted,
            is_master_muted,
            duck_progress,
            duck_amount,
            variation,
        );
    }
    if is_ambient_muted || is_master_muted {
        0
    } else {
        proof {
            lemma_milli_mul_bound(volume, ambient_master);
        }
        let va = mul_milli(volume, ambient_master);
        proof {
            lemma_milli_mul_bound(va, master);
        }
        let vam = mul_milli(va, master);
        proof {
            lemma_milli_mul_bound(vam, 1000);
            lemma_milli_mul_mono(vam, variation, 1000, 1500);
            assert(milli_mul(1000, 1500) == 1500);
        }
        let vamx = mul_milli(vam, variation);
        let d = duck_factor_exec(duck_progress, duck_amount);
        proof {
            lemma_milli_mul_bound(vamx, d);
        }
        mul_milli(vamx, d)
    }
}

/// The variation multiplier lies within the configured spread around
/// unity.
pub open spec fn variation_window(volume_variation: u32, var: u32) -> bool {
    1000 - volume_variation <= var <= 1000 + volume_variation
}

/// Effective volume of one ambient voice, as handed to its sink: the gain
/// product of the voice volume, the ambient master, the global master and
/// the ducking factor, times a random variation multiplier drawn from the
/// voice's configured spread. With no spread configured the result is the
/// exact base gain.
pub fn calc_ambient_volume(
    settings: &crate::settings::AmbientSettings,
    ambient_master: u32,
    master: u32,
    is_ambient_muted: bool,
    is_master_muted: bool,
    duck_progress: u32,
    duck_amount: u32,
) -> (r: u32)
    requires
        settings.valid(),
        ambient_master <= 1000,
        master <= 1000,
        duck_progress <= 1000,
        duck_amount <= 1000,
    ensures
        exists|var: u32|
            #[trigger] variation_window(settings.volume_variation, var) && r == ambient_gain(
                settings.volume,
                ambient_master,
                master,
                is_ambient_muted,
                is_master_muted,
                duck_progress,
                duck_amount,
                var,
            ),
        settings.volume_variation == 0 ==> r == ambient_base_gain(
            settings.volume,
            ambient_master,
            master,
            is_ambient_muted,
            is_master_muted,
            duck_progress,
            duck_amount,
        ),
        r <= 1500,
{
    let vv = settings.volume_variation;
    let var: u32 = if vv > 0 {
        (1000 - vv) + crate::rng::draw_u32_inclusive(0, 2 * vv)
    } else {
        1000
    };
    let r = ambient_gain_exec(
        settings.volume,
        ambient_master,
        master,
        is_ambient_muted,
        is_master_muted,
        duck_progress,
        duck_amount,
        var,
    );
    proof {
        assert(variation_window(settings.volume_variation, var));
    }
    r
}

} // verus!
