//! Whole-degree trigonometry in fixed point: a quarter-wave sine table in
//! millionths, extended to the full turn by quadrant symmetry. Angles are
//! whole degrees; each table entry is the rounded sine, so a derived
//! (cos, sin) pair has squared magnitude within `1e-5` of one.

use vstd::prelude::*;
use crate::SCALE;

verus! {

/// sin of `d` degrees in millionths, for `d` in `0..=90` (clamped outside).
pub open spec fn sin_lut(d: int) -> int {
    if d <= 0 { 0 }
    else if d == 1 { 17_452 }
    else if d == 2 { 34_899 }
    else if d == 3 { 52_336 }
    else if d == 4 { 69_756 }
    else if d == 5 { 87_156 }
    else if d == 6 { 104_528 }
    else if d == 7 { 121_869 }
    else if d == 8 { 139_173 }
    else if d == 9 { 156_434 }
    else if d == 10 { 173_648 }
    else if d == 11 { 190_809 }
    else if d == 12 { 207_912 }
    else if d == 13 { 224_951 }
    else if d == 14 { 241_922 }
    else if d == 15 { 258_819 }
    else if d == 16 { 275_637 }
    else if d == 17 { 292_372 }
    else if d == 18 { 309_017 }
    else if d == 19 { 325_568 }
    else if d == 20 { 342_020 }
    else if d == 21 { 358_368 }
    else if d == 22 { 374_607 }
    else if d == 23 { 390_731 }
    else if d == 24 { 406_737 }
    else if d == 25 { 422_618 }
    else if d == 26 { 438_371 }
    else if d == 27 { 453_990 }
    else if d == 28 { 469_472 }
    else if d == 29 { 484_810 }
    else if d == 30 { 500_000 }
    else if d == 31 { 515_038 }
    else if d == 32 { 529_919 }
    else if d == 33 { 544_639 }
    else if d == 34 { 559_193 }
    else if d == 35 { 573_576 }
    else if d == 36 { 587_785 }
    else if d == 37 { 601_815 }
    else if d == 38 { 615_661 }
    else if d == 39 { 629_320 }
    else if d == 40 { 642_788 }
    else if d == 41 { 656_059 }
    else if d == 42 { 669_131 }
    else if d == 43 { 681_998 }
    else if d == 44 { 694_658 }
    else if d == 45 { 707_107 }
    else if d == 46 { 719_340 }
    else if d == 47 { 731_354 }
    else if d == 48 { 743_145 }
    else if d == 49 { 754_710 }
    else if d == 50 { 766_044 }
    else if d == 51 { 777_146 }
    else if d == 52 { 788_011 }
    else if d == 53 { 798_636 }
    else if d == 54 { 809_017 }
    else if d == 55 { 819_152 }
    else if d == 56 { 829_038 }
    else if d == 57 { 838_671 }
    else if d == 58 { 848_048 }
    else if d == 59 { 857_167 }
    else if d == 60 { 866_025 }
    else if d == 61 { 874_620 }
    else if d == 62 { 882_948 }
    else if d == 63 { 891_007 }
    else if d == 64 { 898_794 }
    else if d == 65 { 906_308 }
    else if d == 66 { 913_545 }
    else if d == 67 { 920_505 }
    else if d == 68 { 927_184 }
    else if d == 69 { 933_580 }
    else if d == 70 { 939_693 }
    else if d == 71 { 945_519 }
    else if d == 72 { 951_057 }
    else if d == 73 { 956_305 }
    else if d == 74 { 961_262 }
    else if d == 75 { 965_926 }
    else if d == 76 { 970_296 }
    else if d == 77 { 974_370 }
    else if d == 78 { 978_148 }
    else if d == 79 { 981_627 }
    else if d == 80 { 984_808 }
    else if d == 81 { 987_688 }
    else if d == 82 { 990_268 }
    else if d == 83 { 992_546 }
    else if d == 84 { 994_522 }
    else if d == 85 { 996_195 }
    else if d == 86 { 997_564 }
    else if d == 87 { 998_630 }
    else if d == 88 { 999_391 }
    else if d == 89 { 999_848 }
    else { 1_000_000 }
}

/// sin over a whole turn, by quadrant reduction to the quarter table.
pub open spec fn sin_deg(a: int) -> int {
    if a <= 90 { sin_lut(a) }
    else if a <= 180 { sin_lut(180 - a) }
    else if a <= 270 { -sin_lut(a - 180) }
    else { -sin_lut(360 - a) }
}

/// cos over a whole turn, as the sine of the complementary angle.
pub open spec fn cos_deg(a: int) -> int {
    if a <= 90 { sin_lut(90 - a) }
    else if a <= 180 { -sin_lut(a - 90) }
    else if a <= 270 { -sin_lut(270 - a) }
    else { sin_lut(a - 270) }
}

/// Quarter-wave sine lookup, the exact table of `sin_lut`.
pub fn sin_quarter(d: u32) -> (s: i64)
    requires
        d <= 90,
    ensures
        s == sin_lut(d as int),
        0 <= s <= SCALE,
{
    if d <= 0 { 0 }
    else if d == 1 { 17_452 }
    else if d == 2 { 34_899 }
    else if d == 3 { 52_336 }
    else if d == 4 { 69_756 }
    else if d == 5 { 87_156 }
    else if d == 6 { 104_528 }
    else if d == 7 { 121_869 }
    else if d == 8 { 139_173 }
    else if d == 9 { 156_434 }
    else if d == 10 { 173_648 }
    else if d == 11 { 190_809 }
    else if d == 12 { 207_912 }
    else if d == 13 { 224_951 }
    else if d == 14 { 241_922 }
    else if d == 15 { 258_819 }
    else if d == 16 { 275_637 }
    else if d == 17 { 292_372 }
    else if d == 18 { 309_017 }
    else if d == 19 { 325_568 }
    else if d == 20 { 342_020 }
    else if d == 21 { 358_368 }
    else if d == 22 { 374_607 }
    else if d == 23 { 390_731 }
    else if d == 24 { 406_737 }
    else if d == 25 { 422_618 }
    else if d == 26 { 438_371 }
    else if d == 27 { 453_990 }
    else if d == 28 { 469_472 }
    else if d == 29 { 484_810 }
    else if d == 30 { 500_000 }
    else if d == 31 { 515_038 }
    else if d == 32 { 529_919 }
    else if d == 33 { 544_639 }
    else if d == 34 { 559_193 }
    else if d == 35 { 573_576 }
    else if d == 36 { 587_785 }
    else if d == 37 { 601_815 }
    else if d == 38 { 615_661 }
    else if d == 39 { 629_320 }
    else if d == 40 { 642_788 }
    else if d == 41 { 656_059 }
    else if d == 42 { 669_131 }
    else if d == 43 { 681_998 }
    else if d == 44 { 694_658 }
    else if d == 45 { 707_107 }
    else if d == 46 { 719_340 }
    else if d == 47 { 731_354 }
    else if d == 48 { 743_145 }
    else if d == 49 { 754_710 }
    else if d == 50 { 766_044 }
    else if d == 51 { 777_146 }
    else if d == 52 { 788_011 }
    else if d == 53 { 798_636 }
    else if d == 54 { 809_017 }
    else if d == 55 { 819_152 }
    else if d == 56 { 829_038 }
    else if d == 57 { 838_671 }
    else if d == 58 { 848_048 }
    else if d == 59 { 857_167 }
    else if d == 60 { 866_025 }
    else if d == 61 { 874_620 }
    else if d == 62 { 882_948 }
    else if d == 63 { 891_007 }
    else if d == 64 { 898_794 }
    else if d == 65 { 906_308 }
    else if d == 66 { 913_545 }
    else if d == 67 { 920_505 }
    else if d == 68 { 927_184 }
    else if d == 69 { 933_580 }
    else if d == 70 { 939_693 }
    else if d == 71 { 945_519 }
    else if d == 72 { 951_057 }
    else if d == 73 { 956_305 }
    else if d == 74 { 961_262 }
    else if d == 75 { 965_926 }
    else if d == 76 { 970_296 }
    else if d == 77 { 974_370 }
    else if d == 78 { 978_148 }
    else if d == 79 { 981_627 }
    else if d == 80 { 984_808 }
    else if d == 81 { 987_688 }
    else if d == 82 { 990_268 }
    else if d == 83 { 992_546 }
    else if d == 84 { 994_522 }
    else if d == 85 { 996_195 }
    else if d == 86 { 997_564 }
    else if d == 87 { 998_630 }
    else if d == 88 { 999_391 }
    else if d == 89 { 999_848 }
    else { 1_000_000 }
}

/// The fixed-point cosine and sine of a whole-degree angle, both within
/// `[-SCALE, SCALE]`.
pub fn cos_sin_deg(a: u32) -> (r: (i64, i64))
    requires
        a < 360,
    ensures
        r.0 == cos_deg(a as int),
        r.1 == sin_deg(a as int),
        -SCALE <= r.0 <= SCALE,
        -SCALE <= r.1 <= SCALE,
{
    if a <= 90 {
        (sin_quarter(90 - a), sin_quarter(a))
    } else if a <= 180 {
        (-sin_quarter(a - 90), sin_quarter(180 - a))
    } else if a <= 270 {
        (-sin_quarter(270 - a), -sin_quarter(a - 180))
    } else {
        (sin_quarter(a - 270), -sin_quarter(360 - a))
    }
}

} // verus!
