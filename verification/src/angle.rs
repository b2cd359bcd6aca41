//! Launch directions: cosine and sine of whole degrees to eight decimals, and
//! the velocity that a launch angle and a speed level give.

use vstd::prelude::*;

verus! {

/// The steepest launch angle, in degrees above or below the horizontal.
pub const MAX_ANGLE: i32 = 45;

/// The slowest speed level. Level `n` is `n` tenths of a cell per tick.
pub const MIN_LEVEL: u8 = 1;

/// The fastest speed level.
pub const MAX_LEVEL: u8 = 9;

/// The speed level of a new game.
pub const START_LEVEL: u8 = 5;

/// The number of units per tick that make one speed level: a tenth of a
/// cell.
pub const LEVEL_STEP: i32 = 100000000;

/// How far the length of a launch velocity may lie from the selected speed,
/// in units per tick: a hundred-thousandth of a cell.
pub const TOLERANCE: i32 = 10000;

/// A hundred million times the cosine of 0, 1, .., 45 degrees, to the
/// nearest whole.
pub const COS_TABLE: [i32; 46] = [
    100000000, 99984770, 99939083, 99862953, 99756405, 99619470,
    99452190, 99254615, 99026807, 98768834, 98480775, 98162718,
    97814760, 97437006, 97029573, 96592583, 96126170, 95630476,
    95105652, 94551858, 93969262, 93358043, 92718385, 92050485,
    91354546, 90630779, 89879405, 89100652, 88294759, 87461971,
    86602540, 85716730, 84804810, 83867057, 82903757, 81915204,
    80901699, 79863551, 78801075, 77714596, 76604444, 75470958,
    74314483, 73135370, 71933980, 70710678,
];

/// A hundred million times the sine of 0, 1, .., 45 degrees, to the nearest
/// whole.
pub const SIN_TABLE: [i32; 46] = [
    0, 1745241, 3489950, 5233596, 6975647, 8715574,
    10452846, 12186934, 13917310, 15643447, 17364818, 19080900,
    20791169, 22495105, 24192190, 25881905, 27563736, 29237170,
    30901699, 32556815, 34202014, 35836795, 37460659, 39073113,
    40673664, 42261826, 43837115, 45399050, 46947156, 48480962,
    50000000, 51503807, 52991926, 54463904, 55919290, 57357644,
    58778525, 60181502, 61566148, 62932039, 64278761, 65605903,
    66913061, 68199836, 69465837, 70710678,
];

/// `deg` is a launch angle: within `MAX_ANGLE` degrees of the horizontal.
pub open spec fn is_launch_angle(deg: int) -> bool {
    -MAX_ANGLE <= deg <= MAX_ANGLE
}

/// `level` is a speed level.
pub open spec fn is_level(level: int) -> bool {
    MIN_LEVEL <= level <= MAX_LEVEL
}

/// A hundred million times the cosine of `deg` degrees.
pub open spec fn cos_scaled(deg: int) -> int {
    if deg < 0 {
        COS_TABLE@[-deg] as int
    } else {
        COS_TABLE@[deg] as int
    }
}

/// A hundred million times the sine of `deg` degrees.
pub open spec fn sin_scaled(deg: int) -> int {
    if deg < 0 {
        -(SIN_TABLE@[-deg] as int)
    } else {
        SIN_TABLE@[deg] as int
    }
}

/// The speed of level `level`, in units per tick.
pub open spec fn speed_of(level: int) -> int {
    level * LEVEL_STEP
}

/// The velocity of a ball launched at `deg` degrees with speed level
/// `level`, in units per tick: the speed scaled by cosine and sine.
pub open spec fn launch_velocity(deg: int, level: int) -> (int, int) {
    (level * cos_scaled(deg), level * sin_scaled(deg))
}

/// Entry `a` of the two tables: the sine is not below zero nor above the
/// cosine, and the point that the two make lies on the circle of radius
/// `LEVEL_STEP`, to within one.
proof fn table_entry(a: int)
    requires
        0 <= a <= MAX_ANGLE,
    ensures
        0 <= SIN_TABLE@[a] <= COS_TABLE@[a],
        70710678 <= COS_TABLE@[a] <= LEVEL_STEP,
        (LEVEL_STEP - 1) * (LEVEL_STEP - 1) <= COS_TABLE@[a] * COS_TABLE@[a] + SIN_TABLE@[a]
            * SIN_TABLE@[a] <= (LEVEL_STEP + 1) * (LEVEL_STEP + 1),
{
    let c = COS_TABLE@[a] as int;
    let s = SIN_TABLE@[a] as int;
    if a == 0 {
        assert(c == 100000000 && s == 0);
        assert(c * c + s * s == 10000000000000000) by (nonlinear_arith)
            requires
                c == 100000000,
                s == 0,
        ;
    } else if a == 1 {
        assert(c == 99984770 && s == 1745241);
        assert(c * c + s * s == 10000000098100981) by (nonlinear_arith)
            requires
                c == 99984770,
                s == 1745241,
        ;
    } else if a == 2 {
        assert(c == 99939083 && s == 3489950);
        assert(c * c + s * s == 10000000061883389) by (nonlinear_arith)
            requires
                c == 99939083,
                s == 3489950,
        ;
    } else if a == 3 {
        assert(c == 99862953 && s == 5233596);
        assert(c * c + s * s == 9999999908971425) by (nonlinear_arith)
            requires
                c == 99862953,
                s == 5233596,
        ;
    } else if a == 4 {
        assert(c == 99756405 && s == 6975647);
        assert(c * c + s * s == 9999999989592634) by (nonlinear_arith)
            requires
                c == 99756405,
                s == 6975647,
        ;
    } else if a == 5 {
        assert(c == 99619470 && s == 8715574);
        assert(c * c + s * s == 10000000033230376) by (nonlinear_arith)
            requires
                c == 99619470,
                s == 8715574,
        ;
    } else if a == 6 {
        assert(c == 99452190 && s == 10452846);
        assert(c * c + s * s == 10000000085295816) by (nonlinear_arith)
            requires
                c == 99452190,
                s == 10452846,
        ;
    } else if a == 7 {
        assert(c == 99254615 && s == 12186934);
        assert(c * c + s * s == 9999999959118581) by (nonlinear_arith)
            requires
                c == 99254615,
                s == 12186934,
        ;
    } else if a == 8 {
        assert(c == 99026807 && s == 13917310);
        assert(c * c + s * s == 10000000022251349) by (nonlinear_arith)
            requires
                c == 99026807,
                s == 13917310,
        ;
    } else if a == 9 {
        assert(c == 98768834 && s == 15643447);
        assert(c * c + s * s == 10000000003761365) by (nonlinear_arith)
            requires
                c == 98768834,
                s == 15643447,
        ;
    } else if a == 10 {
        assert(c == 98480775 && s == 17364818);
        assert(c * c + s * s == 9999999948773749) by (nonlinear_arith)
            requires
                c == 98480775,
                s == 17364818,
        ;
    } else if a == 11 {
        assert(c == 98162718 && s == 19080900);
        assert(c * c + s * s == 9999999949957524) by (nonlinear_arith)
            requires
                c == 98162718,
                s == 19080900,
        ;
    } else if a == 12 {
        assert(c == 97814760 && s == 20791169);
        assert(c * c + s * s == 9999999982244161) by (nonlinear_arith)
            requires
                c == 97814760,
                s == 20791169,
        ;
    } else if a == 13 {
        assert(c == 97437006 && s == 22495105);
        assert(c * c + s * s == 9999999887205061) by (nonlinear_arith)
            requires
                c == 97437006,
                s == 22495105,
        ;
    } else if a == 14 {
        assert(c == 97029573 && s == 24192190);
        assert(c * c + s * s == 10000000093558429) by (nonlinear_arith)
            requires
                c == 97029573,
                s == 24192190,
        ;
    } else if a == 15 {
        assert(c == 96592583 && s == 25881905);
        assert(c * c + s * s == 10000000097040914) by (nonlinear_arith)
            requires
                c == 96592583,
                s == 25881905,
        ;
    } else if a == 16 {
        assert(c == 96126170 && s == 27563736);
        assert(c * c + s * s == 10000000101146596) by (nonlinear_arith)
            requires
                c == 96126170,
                s == 27563736,
        ;
    } else if a == 17 {
        assert(c == 95630476 && s == 29237170);
        assert(c * c + s * s == 10000000049595476) by (nonlinear_arith)
            requires
                c == 95630476,
                s == 29237170,
        ;
    } else if a == 18 {
        assert(c == 95105652 && s == 30901699);
        assert(c * c + s * s == 10000000043431705) by (nonlinear_arith)
            requires
                c == 95105652,
                s == 30901699,
        ;
    } else if a == 19 {
        assert(c == 94551858 && s == 32556815);
        assert(c * c + s * s == 10000000054196389) by (nonlinear_arith)
            requires
                c == 94551858,
                s == 32556815,
        ;
    } else if a == 20 {
        assert(c == 93969262 && s == 34202014);
        assert(c * c + s * s == 9999999962480840) by (nonlinear_arith)
            requires
                c == 93969262,
                s == 34202014,
        ;
    } else if a == 21 {
        assert(c == 93358043 && s == 35836795);
        assert(c * c + s * s == 10000000068661874) by (nonlinear_arith)
            requires
                c == 93358043,
                s == 35836795,
        ;
    } else if a == 22 {
        assert(c == 92718385 && s == 37460659);
        assert(c * c + s * s == 9999999889722506) by (nonlinear_arith)
            requires
                c == 92718385,
                s == 37460659,
        ;
    } else if a == 23 {
        assert(c == 92050485 && s == 39073113);
        assert(c * c + s * s == 9999999948245994) by (nonlinear_arith)
            requires
                c == 92050485,
                s == 39073113,
        ;
    } else if a == 24 {
        assert(c == 91354546 && s == 40673664);
        assert(c * c + s * s == 10000000018051012) by (nonlinear_arith)
            requires
                c == 91354546,
                s == 40673664,
        ;
    } else if a == 25 {
        assert(c == 90630779 && s == 42261826);
        assert(c * c + s * s == 10000000039001117) by (nonlinear_arith)
            requires
                c == 90630779,
                s == 42261826,
        ;
    } else if a == 26 {
        assert(c == 89879405 && s == 43837115);
        assert(c * c + s * s == 10000000094677250) by (nonlinear_arith)
            requires
                c == 89879405,
                s == 43837115,
        ;
    } else if a == 27 {
        assert(c == 89100652 && s == 45399050);
        assert(c * c + s * s == 9999999927727604) by (nonlinear_arith)
            requires
                c == 89100652,
                s == 45399050,
        ;
    } else if a == 28 {
        assert(c == 88294759 && s == 46947156);
        assert(c * c + s * s == 9999999923356417) by (nonlinear_arith)
            requires
                c == 88294759,
                s == 46947156,
        ;
    } else if a == 29 {
        assert(c == 87461971 && s == 48480962);
        assert(c * c + s * s == 10000000047650285) by (nonlinear_arith)
            requires
                c == 87461971,
                s == 48480962,
        ;
    } else if a == 30 {
        assert(c == 86602540 && s == 50000000);
        assert(c * c + s * s == 9999999934451600) by (nonlinear_arith)
            requires
                c == 86602540,
                s == 50000000,
        ;
    } else if a == 31 {
        assert(c == 85716730 && s == 51503807);
        assert(c * c + s * s == 9999999937386149) by (nonlinear_arith)
            requires
                c == 85716730,
                s == 51503807,
        ;
    } else if a == 32 {
        assert(c == 84804810 && s == 52991926);
        assert(c * c + s * s == 10000000020325576) by (nonlinear_arith)
            requires
                c == 84804810,
                s == 52991926,
        ;
    } else if a == 33 {
        assert(c == 83867057 && s == 54463904);
        assert(c * c + s * s == 10000000088762465) by (nonlinear_arith)
            requires
                c == 83867057,
                s == 54463904,
        ;
    } else if a == 34 {
        assert(c == 82903757 && s == 55919290);
        assert(c * c + s * s == 9999999918819149) by (nonlinear_arith)
            requires
                c == 82903757,
                s == 55919290,
        ;
    } else if a == 35 {
        assert(c == 81915204 && s == 57357644);
        assert(c * c + s * s == 9999999971592352) by (nonlinear_arith)
            requires
                c == 81915204,
                s == 57357644,
        ;
    } else if a == 36 {
        assert(c == 80901699 && s == 58778525);
        assert(c * c + s * s == 9999999902262226) by (nonlinear_arith)
            requires
                c == 80901699,
                s == 58778525,
        ;
    } else if a == 37 {
        assert(c == 79863551 && s == 60181502);
        assert(c * c + s * s == 9999999961305605) by (nonlinear_arith)
            requires
                c == 79863551,
                s == 60181502,
        ;
    } else if a == 38 {
        assert(c == 78801075 && s == 61566148);
        assert(c * c + s * s == 10000000000713529) by (nonlinear_arith)
            requires
                c == 78801075,
                s == 61566148,
        ;
    } else if a == 39 {
        assert(c == 77714596 && s == 62932039);
        assert(c * c + s * s == 9999999964140737) by (nonlinear_arith)
            requires
                c == 77714596,
                s == 62932039,
        ;
    } else if a == 40 {
        assert(c == 76604444 && s == 64278761);
        assert(c * c + s * s == 9999999956244257) by (nonlinear_arith)
            requires
                c == 76604444,
                s == 64278761,
        ;
    } else if a == 41 {
        assert(c == 75470958 && s == 65605903);
        assert(c * c + s * s == 10000000009883173) by (nonlinear_arith)
            requires
                c == 75470958,
                s == 65605903,
        ;
    } else if a == 42 {
        assert(c == 74314483 && s == 66913061);
        assert(c * c + s * s == 10000000115947010) by (nonlinear_arith)
            requires
                c == 74314483,
                s == 66913061,
        ;
    } else if a == 43 {
        assert(c == 73135370 && s == 68199836);
        assert(c * c + s * s == 9999999975463796) by (nonlinear_arith)
            requires
                c == 73135370,
                s == 68199836,
        ;
    } else if a == 44 {
        assert(c == 71933980 && s == 69465837);
        assert(c * c + s * s == 9999999988750969) by (nonlinear_arith)
            requires
                c == 71933980,
                s == 69465837,
        ;
    } else if a == 45 {
        assert(c == 70710678 && s == 70710678);
        assert(c * c + s * s == 9999999966439368) by (nonlinear_arith)
            requires
                c == 70710678,
                s == 70710678,
        ;
    }
}

/// The tables begin on the horizontal and end on the diagonal.
pub proof fn tables_span_an_eighth_turn()
    ensures
        COS_TABLE@[0] == LEVEL_STEP,
        SIN_TABLE@[0] == 0,
        COS_TABLE@[MAX_ANGLE as int] == SIN_TABLE@[MAX_ANGLE as int],
{
}

/// From one entry of the tables to the next the point turns by the same
/// angle, that of entry one: the next entry is what the rule for the cosine
/// and the sine of a sum gives, to within two in the last decimal. On the
/// way the sine rises and the cosine does not.
pub proof fn tables_turn_by_one_degree(a: int)
    requires
        0 <= a < MAX_ANGLE,
    ensures
        ({
            let turned = COS_TABLE@[a] * COS_TABLE@[1] - SIN_TABLE@[a] * SIN_TABLE@[1];
            -2 * LEVEL_STEP <= COS_TABLE@[a + 1] * LEVEL_STEP - turned <= 2 * LEVEL_STEP
        }),
        ({
            let turned = SIN_TABLE@[a] * COS_TABLE@[1] + COS_TABLE@[a] * SIN_TABLE@[1];
            -2 * LEVEL_STEP <= SIN_TABLE@[a + 1] * LEVEL_STEP - turned <= 2 * LEVEL_STEP
        }),
        SIN_TABLE@[a] < SIN_TABLE@[a + 1],
        COS_TABLE@[a + 1] <= COS_TABLE@[a],
{
    let c = COS_TABLE@[a] as int;
    let s = SIN_TABLE@[a] as int;
    let k = COS_TABLE@[1] as int;
    let j = SIN_TABLE@[1] as int;
    assert(k == 99984770 && j == 1745241);
    if a == 0 {
        assert(c == 100000000 && s == 0);
        assert(COS_TABLE@[a + 1] == 99984770 && SIN_TABLE@[a + 1] == 1745241);
        assert(c * k - s * j == 9998477000000000 && s * k + c * j == 174524100000000)
            by (nonlinear_arith)
            requires
                c == 100000000,
                s == 0,
                k == 99984770,
                j == 1745241,
        ;
    } else if a == 1 {
        assert(c == 99984770 && s == 1745241);
        assert(COS_TABLE@[a + 1] == 99939083 && SIN_TABLE@[a + 1] == 3489950);
        assert(c * k - s * j == 9993908365804819 && s * k + c * j == 348995039959140)
            by (nonlinear_arith)
            requires
                c == 99984770,
                s == 1745241,
                k == 99984770,
                j == 1745241,
        ;
    } else if a == 2 {
        assert(c == 99939083 && s == 3489950);
        assert(COS_TABLE@[a + 1] == 99862953 && SIN_TABLE@[a + 1] == 5233596);
        assert(c * k - s * j == 9986295423937960 && s * k + c * j == 523359633215503)
            by (nonlinear_arith)
            requires
                c == 99939083,
                s == 3489950,
                k == 99984770,
                j == 1745241,
        ;
    } else if a == 3 {
        assert(c == 99862953 && s == 5233596);
        assert(COS_TABLE@[a + 1] == 99756405 && SIN_TABLE@[a + 1] == 6975647);
        assert(c * k - s * j == 9975640500909174 && s * k + c * j == 697564812289593)
            by (nonlinear_arith)
            requires
                c == 99862953,
                s == 5233596,
                k == 99984770,
                j == 1745241,
        ;
    } else if a == 4 {
        assert(c == 99756405 && s == 6975647);
        assert(COS_TABLE@[a + 1] == 99619470 && SIN_TABLE@[a + 1] == 8715574);
        assert(c * k - s * j == 9961947024805923 && s * k + c * j == 871557428914795)
            by (nonlinear_arith)
            requires
                c == 99756405,
                s == 6975647,
                k == 99984770,
                j == 1745241,
        ;
    } else if a == 5 {
        assert(c == 99619470 && s == 8715574);
        assert(COS_TABLE@[a + 1] == 99452190 && SIN_TABLE@[a + 1] == 10452846);
        assert(c * k - s * j == 9945219018388566 && s * k + c * j == 1045284645250250)
            by (nonlinear_arith)
            requires
                c == 99619470,
                s == 8715574,
                k == 99984770,
                j == 1745241,
        ;
    } else if a == 6 {
        assert(c == 99452190 && s == 10452846);
        assert(COS_TABLE@[a + 1] == 99254615 && SIN_TABLE@[a + 1] == 12186934);
        assert(c * k - s * j == 9925461607740414 && s * k + c * j == 1218693442683210)
            by (nonlinear_arith)
            requires
                c == 99452190,
                s == 10452846,
                k == 99984770,
                j == 1745241,
        ;
    } else if a == 7 {
        assert(c == 99254615 && s == 12186934);
        assert(COS_TABLE@[a + 1] == 99026807 && SIN_TABLE@[a + 1] == 13917310);
        assert(c * k - s * j == 9902680715332456 && s * k + c * j == 1391731016532395)
            by (nonlinear_arith)
            requires
                c == 99254615,
                s == 12186934,
                k == 99984770,
                j == 1745241,
        ;
    } else if a == 8 {
        assert(c == 99026807 && s == 13917310);
        assert(COS_TABLE@[a + 1] == 98768834 && SIN_TABLE@[a + 1] == 15643447);
        assert(c * k - s * j == 9876883461707680 && s * k + c * j == 1564344683044187)
            by (nonlinear_arith)
            requires
                c == 99026807,
                s == 13917310,
                k == 99984770,
                j == 1745241,
        ;
    } else if a == 9 {
        assert(c == 98768834 && s == 15643447);
        assert(COS_TABLE@[a + 1] == 98480775 && SIN_TABLE@[a + 1] == 17364818);
        assert(c * k - s * j == 9848077565572453 && s * k + c * j == 1736481868921184)
            by (nonlinear_arith)
            requires
                c == 98768834,
                s == 15643447,
                k == 99984770,
                j == 1745241,
        ;
    } else if a == 10 {
        assert(c == 98480775 && s == 17364818);
        assert(COS_TABLE@[a + 1] == 98162718 && SIN_TABLE@[a + 1] == 19080900);
        assert(c * k - s * j == 9816271845465612 && s * k + c * j == 1908090020063635)
            by (nonlinear_arith)
            requires
                c == 98480775,
                s == 17364818,
                k == 99984770,
                j == 1745241,
        ;
    } else if a == 11 {
        assert(c == 98162718 && s == 19080900);
        assert(COS_TABLE@[a + 1] == 97814760 && SIN_TABLE@[a + 1] == 20791169);
        assert(c * k - s * j == 9781476012807960 && s * k + c * j == 2079116998018038)
            by (nonlinear_arith)
            requires
                c == 98162718,
                s == 19080900,
                k == 99984770,
                j == 1745241,
        ;
    } else if a == 12 {
        assert(c == 97814760 && s == 20791169);
        assert(COS_TABLE@[a + 1] == 97437006 && SIN_TABLE@[a + 1] == 22495105);
        assert(c * k - s * j == 9743700680628471 && s * k + c * j == 2249510580053290)
            by (nonlinear_arith)
            requires
                c == 97814760,
                s == 20791169,
                k == 99984770,
                j == 1745241,
        ;
    } else if a == 13 {
        assert(c == 97437006 && s == 22495105);
        assert(COS_TABLE@[a + 1] == 97029573 && SIN_TABLE@[a + 1] == 24192190);
        assert(c * k - s * j == 9702957254853315 && s * k + c * j == 2419218957339296)
            by (nonlinear_arith)
            requires
                c == 97437006,
                s == 22495105,
                k == 99984770,
                j == 1745241,
        ;
    } else if a == 14 {
        assert(c == 97029573 && s == 24192190);
        assert(COS_TABLE@[a + 1] == 96592583 && SIN_TABLE@[a + 1] == 25881905);
        assert(c * k - s * j == 9659258337735420 && s * k + c * j == 2588190541958393)
            by (nonlinear_arith)
            requires
                c == 97029573,
                s == 24192190,
                k == 99984770,
                j == 1745241,
        ;
    } else if a == 15 {
        assert(c == 96592583 && s == 25881905);
        assert(COS_TABLE@[a + 1] == 96126170 && SIN_TABLE@[a + 1] == 27563736);
        assert(c * k - s * j == 9612617033196805 && s * k + c * j == 2756373654734353)
            by (nonlinear_arith)
            requires
                c == 96592583,
                s == 25881905,
                k == 99984770,
                j == 1745241,
        ;
    } else if a == 16 {
        assert(c == 96126170 && s == 27563736);
        assert(COS_TABLE@[a + 1] == 95630476 && SIN_TABLE@[a + 1] == 29237170);
        assert(c * k - s * j == 9563047636250524 && s * k + c * j == 2923717137357690)
            by (nonlinear_arith)
            requires
                c == 96126170,
                s == 27563736,
                k == 99984770,
                j == 1745241,
        ;
    } else if a == 17 {
        assert(c == 95630476 && s == 29237170);
        assert(COS_TABLE@[a + 1] == 95105652 && SIN_TABLE@[a + 1] == 30901699);
        assert(c * k - s * j == 9510565240042550 && s * k + c * j == 3090169945465616)
            by (nonlinear_arith)
            requires
                c == 95630476,
                s == 29237170,
                k == 99984770,
                j == 1745241,
        ;
    } else if a == 18 {
        assert(c == 95105652 && s == 30901699);
        assert(COS_TABLE@[a + 1] == 94551858 && SIN_TABLE@[a + 1] == 32556815);
        assert(c * k - s * j == 9455185828855581 && s * k + c * j == 3255681550326362)
            by (nonlinear_arith)
            requires
                c == 95105652,
                s == 30901699,
                k == 99984770,
                j == 1745241,
        ;
    } else if a == 19 {
        assert(c == 94551858 && s == 32556815);
        assert(COS_TABLE@[a + 1] == 93969262 && SIN_TABLE@[a + 1] == 34202014);
        assert(c * k - s * j == 9396926286835245 && s * k + c * j == 3420201438915328)
            by (nonlinear_arith)
            requires
                c == 94551858,
                s == 32556815,
                k == 99984770,
                j == 1745241,
        ;
    } else if a == 20 {
        assert(c == 93969262 && s == 34202014);
        assert(COS_TABLE@[a + 1] == 93358043 && SIN_TABLE@[a + 1] == 35836795);
        assert(c * k - s * j == 9335804291024366 && s * k + c * j == 3583679512108922)
            by (nonlinear_arith)
            requires
                c == 93969262,
                s == 34202014,
                k == 99984770,
                j == 1745241,
        ;
    } else if a == 21 {
        assert(c == 93358043 && s == 35836795);
        assert(COS_TABLE@[a + 1] == 92718385 && SIN_TABLE@[a + 1] == 37460659);
        assert(c * k - s * j == 9271838613062515 && s * k + c * j == 3746065989935513)
            by (nonlinear_arith)
            requires
                c == 93358043,
                s == 35836795,
                k == 99984770,
                j == 1745241,
        ;
    } else if a == 22 {
        assert(c == 92718385 && s == 37460659);
        assert(COS_TABLE@[a + 1] == 92050485 && SIN_TABLE@[a + 1] == 39073113);
        assert(c * k - s * j == 9205048521022631 && s * k + c * j == 3907311301119215)
            by (nonlinear_arith)
            requires
                c == 92718385,
                s == 37460659,
                k == 99984770,
                j == 1745241,
        ;
    } else if a == 23 {
        assert(c == 92050485 && s == 39073113);
        assert(COS_TABLE@[a + 1] == 91354546 && SIN_TABLE@[a + 1] == 40673664);
        assert(c * k - s * j == 9135454572308217 && s * k + c * j == 4067366496980895)
            by (nonlinear_arith)
            requires
                c == 92050485,
                s == 39073113,
                k == 99984770,
                j == 1745241,
        ;
    } else if a == 24 {
        assert(c == 91354546 && s == 40673664);
        assert(COS_TABLE@[a + 1] == 90630779 && SIN_TABLE@[a + 1] == 42261826);
        assert(c * k - s * j == 9063077924231396 && s * k + c * j == 4226182639312866)
            by (nonlinear_arith)
            requires
                c == 91354546,
                s == 40673664,
                k == 99984770,
                j == 1745241,
        ;
    } else if a == 25 {
        assert(c == 90630779 && s == 42261826);
        assert(COS_TABLE@[a + 1] == 89879405 && SIN_TABLE@[a + 1] == 43837115);
        assert(c * k - s * j == 8987940521765764 && s * k + c * j == 4383711503762759)
            by (nonlinear_arith)
            requires
                c == 90630779,
                s == 42261826,
                k == 99984770,
                j == 1745241,
        ;
    } else if a == 26 {
        assert(c == 89879405 && s == 43837115);
        assert(COS_TABLE@[a + 1] == 89100652 && SIN_TABLE@[a + 1] == 45399050);
        assert(c * k - s * j == 8910065306242135 && s * k + c * j == 4539905083400155)
            by (nonlinear_arith)
            requires
                c == 89879405,
                s == 43837115,
                k == 99984770,
                j == 1745241,
        ;
    } else if a == 27 {
        assert(c == 89100652 && s == 45399050);
        assert(COS_TABLE@[a + 1] == 88294759 && SIN_TABLE@[a + 1] == 46947156);
        assert(c * k - s * j == 8829475913648990 && s * k + c * j == 4694715683465632)
            by (nonlinear_arith)
            requires
                c == 89100652,
                s == 45399050,
                k == 99984770,
                j == 1745241,
        ;
    } else if a == 28 {
        assert(c == 88294759 && s == 46947156);
        assert(COS_TABLE@[a + 1] == 87461971 && SIN_TABLE@[a + 1] == 48480962);
        assert(c * k - s * j == 8746197069335834 && s * k + c * j == 4848096228306039)
            by (nonlinear_arith)
            requires
                c == 88294759,
                s == 46947156,
                k == 99984770,
                j == 1745241,
        ;
    } else if a == 29 {
        assert(c == 87461971 && s == 48480962);
        assert(COS_TABLE@[a + 1] == 86602540 && SIN_TABLE@[a + 1] == 50000000);
        assert(c * k - s * j == 8660254091579828 && s * k + c * j == 5000000052678751)
            by (nonlinear_arith)
            requires
                c == 87461971,
                s == 48480962,
                k == 99984770,
                j == 1745241,
        ;
    } else if a == 30 {
        assert(c == 86602540 && s == 50000000);
        assert(COS_TABLE@[a + 1] == 85716730 && SIN_TABLE@[a + 1] == 51503807);
        assert(c * k - s * j == 8571672993315800 && s * k + c * j == 5150380803512140)
            by (nonlinear_arith)
            requires
                c == 86602540,
                s == 50000000,
                k == 99984770,
                j == 1745241,
        ;
    } else if a == 31 {
        assert(c == 85716730 && s == 51503807);
        assert(COS_TABLE@[a + 1] == 84804810 && SIN_TABLE@[a + 1] == 52991926);
        assert(c * k - s * j == 8480480978569613 && s * k + c * j == 5299192648601320)
            by (nonlinear_arith)
            requires
                c == 85716730,
                s == 51503807,
                k == 99984770,
                j == 1745241,
        ;
    } else if a == 32 {
        assert(c == 84804810 && s == 52991926);
        assert(COS_TABLE@[a + 1] == 83867057 && SIN_TABLE@[a + 1] == 54463904);
        assert(c * k - s * j == 8386705740819534 && s * k + c * j == 5446390364376230)
            by (nonlinear_arith)
            requires
                c == 84804810,
                s == 52991926,
                k == 99984770,
                j == 1745241,
        ;
    } else if a == 33 {
        assert(c == 83867057 && s == 54463904);
        assert(COS_TABLE@[a + 1] == 82903757 && SIN_TABLE@[a + 1] == 55919290);
        assert(c * k - s * j == 8290375766441026 && s * k + c * j == 5591929141167817)
            by (nonlinear_arith)
            requires
                c == 83867057,
                s == 54463904,
                k == 99984770,
                j == 1745241,
        ;
    } else if a == 34 {
        assert(c == 82903757 && s == 55919290);
        assert(COS_TABLE@[a + 1] == 81915204 && SIN_TABLE@[a + 1] == 57357644);
        assert(c * k - s * j == 8191520438182000 && s * k + c * j == 5735764384983737)
            by (nonlinear_arith)
            requires
                c == 82903757,
                s == 55919290,
                k == 99984770,
                j == 1745241,
        ;
    } else if a == 35 {
        assert(c == 81915204 && s == 57357644);
        assert(COS_TABLE@[a + 1] == 80901699 && SIN_TABLE@[a + 1] == 58778525);
        assert(c * k - s * j == 8090169919470876 && s * k + c * j == 5877852615626044)
            by (nonlinear_arith)
            requires
                c == 81915204,
                s == 57357644,
                k == 99984770,
                j == 1745241,
        ;
    } else if a == 36 {
        assert(c == 80901699 && s == 58778525);
        assert(COS_TABLE@[a + 1] == 79863551 && SIN_TABLE@[a + 1] == 60181502);
        assert(c * k - s * j == 7986355075374705 && s * k + c * j == 6018150265128709)
            by (nonlinear_arith)
            requires
                c == 80901699,
                s == 58778525,
                k == 99984770,
                j == 1745241,
        ;
    } else if a == 37 {
        assert(c == 79863551 && s == 60181502);
        assert(COS_TABLE@[a + 1] == 78801075 && SIN_TABLE@[a + 1] == 61566148);
        assert(c * k - s * j == 7880107553386288 && s * k + c * j == 6156614779335331)
            by (nonlinear_arith)
            requires
                c == 79863551,
                s == 60181502,
                k == 99984770,
                j == 1745241,
        ;
    } else if a == 38 {
        assert(c == 78801075 && s == 61566148);
        assert(COS_TABLE@[a + 1] == 77714596 && SIN_TABLE@[a + 1] == 62932039);
        assert(c * k - s * j == 7771459593926082 && s * k + c * j == 6293204014500035)
            by (nonlinear_arith)
            requires
                c == 78801075,
                s == 61566148,
                k == 99984770,
                j == 1745241,
        ;
    } else if a == 39 {
        assert(c == 77714596 && s == 62932039);
        assert(COS_TABLE@[a + 1] == 76604444 && SIN_TABLE@[a + 1] == 64278761);
        assert(c * k - s * j == 7660444432026521 && s * k + c * j == 6427876144283666)
            by (nonlinear_arith)
            requires
                c == 77714596,
                s == 62932039,
                k == 99984770,
                j == 1745241,
        ;
    } else if a == 40 {
        assert(c == 76604444 && s == 64278761);
        assert(COS_TABLE@[a + 1] == 75470958 && SIN_TABLE@[a + 1] == 65605903);
        assert(c * k - s * j == 7547095785191479 && s * k + c * j == 6560590350920974)
            by (nonlinear_arith)
            requires
                c == 76604444,
                s == 64278761,
                k == 99984770,
                j == 1745241,
        ;
    } else if a == 41 {
        assert(c == 75470958 && s == 65605903);
        assert(COS_TABLE@[a + 1] == 74314483 && SIN_TABLE@[a + 1] == 66913061);
        assert(c * k - s * j == 7431448265552037 && s * k + c * j == 6691306132308188)
            by (nonlinear_arith)
            requires
                c == 75470958,
                s == 65605903,
                k == 99984770,
                j == 1745241,
        ;
    } else if a == 42 {
        assert(c == 74314483 && s == 66913061);
        assert(COS_TABLE@[a + 1] == 73135370 && SIN_TABLE@[a + 1] == 68199836);
        assert(c * k - s * j == 7313537072931209 && s * k + c * j == 6819983696706373)
            by (nonlinear_arith)
            requires
                c == 74314483,
                s == 66913061,
                k == 99984770,
                j == 1745241,
        ;
    } else if a == 43 {
        assert(c == 73135370 && s == 68199836);
        assert(COS_TABLE@[a + 1] == 71933980 && SIN_TABLE@[a + 1] == 69465837);
        assert(c * k - s * j == 7193397998334424 && s * k + c * j == 6946583762771890)
            by (nonlinear_arith)
            requires
                c == 73135370,
                s == 68199836,
                k == 99984770,
                j == 1745241,
        ;
    } else if a == 44 {
        assert(c == 71933980 && s == 69465837);
        assert(COS_TABLE@[a + 1] == 70710678 && SIN_TABLE@[a + 1] == 70710678);
        assert(c * k - s * j == 7071067818652883 && s * k + c * j == 7071067866491670)
            by (nonlinear_arith)
            requires
                c == 71933980,
                s == 69465837,
                k == 99984770,
                j == 1745241,
        ;
    }
}

/// The ball leaves to the right, no steeper than 45 degrees, and as fast as
/// the selected speed: the length of its velocity differs from the speed by
/// at most as many units as the level counts, which is far less than
/// `TOLERANCE`.
pub proof fn launch_keeps_speed_and_direction(deg: int, level: int)
    requires
        is_launch_angle(deg),
        is_level(level),
    ensures
        ({
            let (vx, vy) = launch_velocity(deg, level);
            let speed = speed_of(level);
            &&& 0 < vx <= speed
            &&& -vx <= vy <= vx
            &&& (speed - level) * (speed - level) <= vx * vx + vy * vy
            &&& vx * vx + vy * vy <= (speed + level) * (speed + level)
            &&& (speed - TOLERANCE) * (speed - TOLERANCE) <= vx * vx + vy * vy
            &&& vx * vx + vy * vy <= (speed + TOLERANCE) * (speed + TOLERANCE)
        }),
{
    let a = if deg < 0 { -deg } else { deg };
    table_entry(a);
    let c = cos_scaled(deg);
    let s = sin_scaled(deg);
    let unit = LEVEL_STEP as int;
    let t = TOLERANCE as int;
    assert(c == COS_TABLE@[a]);
    assert(s * s == SIN_TABLE@[a] * SIN_TABLE@[a]) by (nonlinear_arith)
        requires
            s == SIN_TABLE@[a] || s == -SIN_TABLE@[a],
    ;
    assert(0 < level * c <= level * unit && -(level * c) <= level * s <= level * c)
        by (nonlinear_arith)
        requires
            1 <= level,
            0 < c <= unit,
            -c <= s <= c,
    ;
    assert((level * c) * (level * c) + (level * s) * (level * s) == (level * level) * (c * c + s
        * s)) by (nonlinear_arith);
    assert((level * unit - level) * (level * unit - level) == (level * level) * ((unit - 1) * (
    unit - 1))) by (nonlinear_arith);
    assert((level * unit + level) * (level * unit + level) == (level * level) * ((unit + 1) * (
    unit + 1))) by (nonlinear_arith);
    assert((level * level) * ((unit - 1) * (unit - 1)) <= (level * level) * (c * c + s * s) <= (
    level * level) * ((unit + 1) * (unit + 1))) by (nonlinear_arith)
        requires
            (unit - 1) * (unit - 1) <= c * c + s * s <= (unit + 1) * (unit + 1),
    ;
    let speed = level * unit;
    assert((speed - t) * (speed - t) <= (speed - level) * (speed - level)) by (nonlinear_arith)
        requires
            0 <= level <= t <= speed,
    ;
    assert((speed + level) * (speed + level) <= (speed + t) * (speed + t)) by (nonlinear_arith)
        requires
            0 <= level <= t,
            0 <= speed,
    ;
}

/// A hundred million times the cosine of `deg` degrees.
pub fn cosine(deg: i32) -> (c: i32)
    requires
        is_launch_angle(deg as int),
    ensures
        c == cos_scaled(deg as int),
        70710678 <= c <= LEVEL_STEP,
{
    let a: usize = if deg < 0 { (-deg) as usize } else { deg as usize };
    COS_TABLE[a]
}

/// A hundred million times the sine of `deg` degrees.
pub fn sine(deg: i32) -> (s: i32)
    requires
        is_launch_angle(deg as int),
    ensures
        s == sin_scaled(deg as int),
        -70710678 <= s <= 70710678,
{
    if deg < 0 {
        -SIN_TABLE[(-deg) as usize]
    } else {
        SIN_TABLE[deg as usize]
    }
}

/// The velocity of a ball launched at `deg` degrees with speed level `level`.
pub fn velocity_for(deg: i32, level: u8) -> (v: (i32, i32))
    requires
        is_launch_angle(deg as int),
        is_level(level as int),
    ensures
        (v.0 as int, v.1 as int) == launch_velocity(deg as int, level as int),
{
    let c = cosine(deg);
    let s = sine(deg);
    assert(0 <= level * c <= 900000000 && -900000000 <= level * s <= 900000000)
        by (nonlinear_arith)
        requires
            1 <= level <= 9,
            0 <= c <= 100000000,
            -100000000 <= s <= 100000000,
    ;
    (level as i32 * c, level as i32 * s)
}

} // verus!
