//! Sine and cosine of whole-degree angles, in fixed point.
//!
//! The quarter table holds `round(sin(d deg) * 1024)` for `d` in
//! `0..=90`; the full circle follows by symmetry, and any angle is
//! reduced modulo 360 first.

use vstd::prelude::*;
use crate::fp::abs_int;

verus! {

/// `round(sin(d deg) * 1024)` for a first-quadrant degree count.
pub open spec fn sin_quarter(d: int) -> int {
    if d <= 0 {
        0
    } else if d == 1 {
        18
    } else if d == 2 {
        36
    } else if d == 3 {
        54
    } else if d == 4 {
        71
    } else if d == 5 {
        89
    } else if d == 6 {
        107
    } else if d == 7 {
        125
    } else if d == 8 {
        143
    } else if d == 9 {
        160
    } else if d == 10 {
        178
    } else if d == 11 {
        195
    } else if d == 12 {
        213
    } else if d == 13 {
        230
    } else if d == 14 {
        248
    } else if d == 15 {
        265
    } else if d == 16 {
        282
    } else if d == 17 {
        299
    } else if d == 18 {
        316
    } else if d == 19 {
        333
    } else if d == 20 {
        350
    } else if d == 21 {
        367
    } else if d == 22 {
        384
    } else if d == 23 {
        400
    } else if d == 24 {
        416
    } else if d == 25 {
        433
    } else if d == 26 {
        449
    } else if d == 27 {
        465
    } else if d == 28 {
        481
    } else if d == 29 {
        496
    } else if d == 30 {
        512
    } else if d == 31 {
        527
    } else if d == 32 {
        543
    } else if d == 33 {
        558
    } else if d == 34 {
        573
    } else if d == 35 {
        587
    } else if d == 36 {
        602
    } else if d == 37 {
        616
    } else if d == 38 {
        630
    } else if d == 39 {
        644
    } else if d == 40 {
        658
    } else if d == 41 {
        672
    } else if d == 42 {
        685
    } else if d == 43 {
        698
    } else if d == 44 {
        711
    } else if d == 45 {
        724
    } else if d == 46 {
        737
    } else if d == 47 {
        749
    } else if d == 48 {
        761
    } else if d == 49 {
        773
    } else if d == 50 {
        784
    } else if d == 51 {
        796
    } else if d == 52 {
        807
    } else if d == 53 {
        818
    } else if d == 54 {
        828
    } else if d == 55 {
        839
    } else if d == 56 {
        849
    } else if d == 57 {
        859
    } else if d == 58 {
        868
    } else if d == 59 {
        878
    } else if d == 60 {
        887
    } else if d == 61 {
        896
    } else if d == 62 {
        904
    } else if d == 63 {
        912
    } else if d == 64 {
        920
    } else if d == 65 {
        928
    } else if d == 66 {
        935
    } else if d == 67 {
        943
    } else if d == 68 {
        949
    } else if d == 69 {
        956
    } else if d == 70 {
        962
    } else if d == 71 {
        968
    } else if d == 72 {
        974
    } else if d == 73 {
        979
    } else if d == 74 {
        984
    } else if d == 75 {
        989
    } else if d == 76 {
        994
    } else if d == 77 {
        998
    } else if d == 78 {
        1002
    } else if d == 79 {
        1005
    } else if d == 80 {
        1008
    } else if d == 81 {
        1011
    } else if d == 82 {
        1014
    } else if d == 83 {
        1016
    } else if d == 84 {
        1018
    } else if d == 85 {
        1020
    } else if d == 86 {
        1022
    } else if d == 87 {
        1023
    } else if d == 88 {
        1023
    } else if d == 89 {
        1024
    } else {
        1024
    }
}

/// The angle reduced into `[0, 360)`.
pub open spec fn norm_deg(d: int) -> int {
    let m = abs_int(d) % 360;
    if d >= 0 {
        m
    } else if m == 0 {
        0
    } else {
        360 - m
    }
}

/// `round(sin(d deg) * 1024)` for any whole-degree angle.
pub open spec fn sin_deg_spec(d: int) -> int {
    let a = norm_deg(d);
    if a <= 90 {
        sin_quarter(a)
    } else if a <= 180 {
        sin_quarter(180 - a)
    } else if a <= 270 {
        -sin_quarter(a - 180)
    } else {
        -sin_quarter(360 - a)
    }
}

/// `round(cos(d deg) * 1024)`: the sine a quarter turn on.
pub open spec fn cos_deg_spec(d: int) -> int {
    sin_deg_spec(norm_deg(d) + 90)
}

/// The quarter table as executable code.
fn sin_quarter_fp(d: u64) -> (r: i64)
    requires
        d <= 90,
    ensures
        r as int == sin_quarter(d as int),
        0 <= r <= 1024,
{
    match d {
        0 => 0,
        1 => 18,
        2 => 36,
        3 => 54,
        4 => 71,
        5 => 89,
        6 => 107,
        7 => 125,
        8 => 143,
        9 => 160,
        10 => 178,
        11 => 195,
        12 => 213,
        13 => 230,
        14 => 248,
        15 => 265,
        16 => 282,
        17 => 299,
        18 => 316,
        19 => 333,
        20 => 350,
        21 => 367,
        22 => 384,
        23 => 400,
        24 => 416,
        25 => 433,
        26 => 449,
        27 => 465,
        28 => 481,
        29 => 496,
        30 => 512,
        31 => 527,
        32 => 543,
        33 => 558,
        34 => 573,
        35 => 587,
        36 => 602,
        37 => 616,
        38 => 630,
        39 => 644,
        40 => 658,
        41 => 672,
        42 => 685,
        43 => 698,
        44 => 711,
        45 => 724,
        46 => 737,
        47 => 749,
        48 => 761,
        49 => 773,
        50 => 784,
        51 => 796,
        52 => 807,
        53 => 818,
        54 => 828,
        55 => 839,
        56 => 849,
        57 => 859,
        58 => 868,
        59 => 878,
        60 => 887,
        61 => 896,
        62 => 904,
        63 => 912,
        64 => 920,
        65 => 928,
        66 => 935,
        67 => 943,
        68 => 949,
        69 => 956,
        70 => 962,
        71 => 968,
        72 => 974,
        73 => 979,
        74 => 984,
        75 => 989,
        76 => 994,
        77 => 998,
        78 => 1002,
        79 => 1005,
        80 => 1008,
        81 => 1011,
        82 => 1014,
        83 => 1016,
        84 => 1018,
        85 => 1020,
        86 => 1022,
        87 => 1023,
        88 => 1023,
        89 => 1024,
        90 => 1024,
        _ => 1024,
    }
}

/// The angle reduced into `[0, 360)`.
fn norm360(d: i64) -> (r: u64)
    ensures
        r as int == norm_deg(d as int),
        r < 360,
{
    if d >= 0 {
        (d as u64) % 360
    } else {
        let k: u128 = ((-(d as i128)) as u128) % 360;
        if k == 0 {
            0
        } else {
            (360 - k) as u64
        }
    }
}

/// Fixed-point sine of a whole-degree angle.
pub fn sin_deg(d: i64) -> (r: i64)
    ensures
        r as int == sin_deg_spec(d as int),
        -1024 <= r <= 1024,
{
    let a = norm360(d);
    if a <= 90 {
        sin_quarter_fp(a)
    } else if a <= 180 {
        sin_quarter_fp(180 - a)
    } else if a <= 270 {
        -sin_quarter_fp(a - 180)
    } else {
        -sin_quarter_fp(360 - a)
    }
}

/// Fixed-point cosine of a whole-degree angle.
pub fn cos_deg(d: i64) -> (r: i64)
    ensures
        r as int == cos_deg_spec(d as int),
        -1024 <= r <= 1024,
{
    let a = norm360(d);
    sin_deg(a as i64 + 90)
}

} // verus!
