//! Period to note conversion: the nearest note to an Amiga period.

use vstd::prelude::*;

verus! {

/// `p` to the 24th power.
pub open spec fn p24(p: int) -> int {
    let p2 = p * p;
    let p4 = p2 * p2;
    let p8 = p4 * p4;
    let p16 = p8 * p8;
    p16 * p8
}

/// 2 to the power `2n - 1`, for `n >= 1`.
pub open spec fn scale(n: nat) -> int
    decreases n,
{
    if n <= 1 {
        2
    } else {
        4 * scale((n - 1) as nat)
    }
}

/// Period 13696 is note 0 (C-0); each halving of the period is an octave,
/// twelve notes, up. A period `p` reaches note `n` when
/// `12 * log2(13696 / p)` is at least `n - 1/2`, that is when
/// `2^(2n-1) * p^24 <= 13696^24`.
pub open spec fn note_reached(p: nat, n: nat) -> bool {
    scale(n) * p24(p as int) <= p24(13696)
}

/// The number of consecutive notes from `n` on (up to 255) that `p` reaches.
pub open spec fn notes_from(p: nat, n: nat) -> nat
    decreases 256 - n,
{
    if n >= 256 || n == 0 || !note_reached(p, n) {
        0
    } else {
        1 + notes_from(p, n + 1)
    }
}

/// The note of period `p`: `12 * log2(13696 / p)` rounded to the nearest
/// integer, 0 where that is negative; 0 for period 0.
pub open spec fn spec_period_note(p: nat) -> nat {
    if p == 0 {
        0
    } else {
        notes_from(p, 1)
    }
}

/// The largest period that reaches note `i + 1`.
pub open spec fn spec_threshold(i: int) -> int {
    if i == 0 { 13306 }
    else if i == 1 { 12559 }
    else if i == 2 { 11854 }
    else if i == 3 { 11189 }
    else if i == 4 { 10561 }
    else if i == 5 { 9968 }
    else if i == 6 { 9408 }
    else if i == 7 { 8880 }
    else if i == 8 { 8382 }
    else if i == 9 { 7911 }
    else if i == 10 { 7467 }
    else if i == 11 { 7048 }
    else if i == 12 { 6653 }
    else if i == 13 { 6279 }
    else if i == 14 { 5927 }
    else if i == 15 { 5594 }
    else if i == 16 { 5280 }
    else if i == 17 { 4984 }
    else if i == 18 { 4704 }
    else if i == 19 { 4440 }
    else if i == 20 { 4191 }
    else if i == 21 { 3955 }
    else if i == 22 { 3733 }
    else if i == 23 { 3524 }
    else if i == 24 { 3326 }
    else if i == 25 { 3139 }
    else if i == 26 { 2963 }
    else if i == 27 { 2797 }
    else if i == 28 { 2640 }
    else if i == 29 { 2492 }
    else if i == 30 { 2352 }
    else if i == 31 { 2220 }
    else if i == 32 { 2095 }
    else if i == 33 { 1977 }
    else if i == 34 { 1866 }
    else if i == 35 { 1762 }
    else if i == 36 { 1663 }
    else if i == 37 { 1569 }
    else if i == 38 { 1481 }
    else if i == 39 { 1398 }
    else if i == 40 { 1320 }
    else if i == 41 { 1246 }
    else if i == 42 { 1176 }
    else if i == 43 { 1110 }
    else if i == 44 { 1047 }
    else if i == 45 { 988 }
    else if i == 46 { 933 }
    else if i == 47 { 881 }
    else if i == 48 { 831 }
    else if i == 49 { 784 }
    else if i == 50 { 740 }
    else if i == 51 { 699 }
    else if i == 52 { 660 }
    else if i == 53 { 623 }
    else if i == 54 { 588 }
    else if i == 55 { 555 }
    else if i == 56 { 523 }
    else if i == 57 { 494 }
    else if i == 58 { 466 }
    else if i == 59 { 440 }
    else if i == 60 { 415 }
    else if i == 61 { 392 }
    else if i == 62 { 370 }
    else if i == 63 { 349 }
    else if i == 64 { 330 }
    else if i == 65 { 311 }
    else if i == 66 { 294 }
    else if i == 67 { 277 }
    else if i == 68 { 261 }
    else if i == 69 { 247 }
    else if i == 70 { 233 }
    else if i == 71 { 220 }
    else if i == 72 { 207 }
    else if i == 73 { 196 }
    else if i == 74 { 185 }
    else if i == 75 { 174 }
    else if i == 76 { 165 }
    else if i == 77 { 155 }
    else if i == 78 { 147 }
    else if i == 79 { 138 }
    else if i == 80 { 130 }
    else if i == 81 { 123 }
    else if i == 82 { 116 }
    else if i == 83 { 110 }
    else if i == 84 { 103 }
    else if i == 85 { 98 }
    else if i == 86 { 92 }
    else if i == 87 { 87 }
    else if i == 88 { 82 }
    else if i == 89 { 77 }
    else if i == 90 { 73 }
    else if i == 91 { 69 }
    else if i == 92 { 65 }
    else if i == 93 { 61 }
    else if i == 94 { 58 }
    else if i == 95 { 55 }
    else if i == 96 { 51 }
    else if i == 97 { 49 }
    else if i == 98 { 46 }
    else if i == 99 { 43 }
    else if i == 100 { 41 }
    else if i == 101 { 38 }
    else if i == 102 { 36 }
    else if i == 103 { 34 }
    else if i == 104 { 32 }
    else if i == 105 { 30 }
    else if i == 106 { 29 }
    else if i == 107 { 27 }
    else if i == 108 { 25 }
    else if i == 109 { 24 }
    else if i == 110 { 23 }
    else if i == 111 { 21 }
    else if i == 112 { 20 }
    else if i == 113 { 19 }
    else if i == 114 { 18 }
    else if i == 115 { 17 }
    else if i == 116 { 16 }
    else if i == 117 { 15 }
    else if i == 118 { 14 }
    else if i == 119 { 13 }
    else if i == 120 { 12 }
    else if i == 121 { 12 }
    else if i == 122 { 11 }
    else if i == 123 { 10 }
    else if i == 124 { 10 }
    else if i == 125 { 9 }
    else if i == 126 { 9 }
    else if i == 127 { 8 }
    else if i == 128 { 8 }
    else if i == 129 { 7 }
    else if i == 130 { 7 }
    else if i == 131 { 6 }
    else if i == 132 { 6 }
    else if i == 133 { 6 }
    else if i == 134 { 5 }
    else if i == 135 { 5 }
    else if i == 136 { 5 }
    else if i == 137 { 4 }
    else if i == 138 { 4 }
    else if i == 139 { 4 }
    else if i == 140 { 4 }
    else if i == 141 { 3 }
    else if i == 142 { 3 }
    else if i == 143 { 3 }
    else if i == 144 { 3 }
    else if i == 145 { 3 }
    else if i == 146 { 2 }
    else if i == 147 { 2 }
    else if i == 148 { 2 }
    else if i == 149 { 2 }
    else if i == 150 { 2 }
    else if i == 151 { 2 }
    else if i == 152 { 2 }
    else if i == 153 { 1 }
    else if i == 154 { 1 }
    else if i == 155 { 1 }
    else if i == 156 { 1 }
    else if i == 157 { 1 }
    else if i == 158 { 1 }
    else if i == 159 { 1 }
    else if i == 160 { 1 }
    else if i == 161 { 1 }
    else if i == 162 { 1 }
    else if i == 163 { 1 }
    else if i == 164 { 1 }
    else { 0 }
}

fn threshold(i: usize) -> (r: u16)
    requires
        i < 165,
    ensures
        r == spec_threshold(i as int),
{
    match i {
        0 => 13306,
        1 => 12559,
        2 => 11854,
        3 => 11189,
        4 => 10561,
        5 => 9968,
        6 => 9408,
        7 => 8880,
        8 => 8382,
        9 => 7911,
        10 => 7467,
        11 => 7048,
        12 => 6653,
        13 => 6279,
        14 => 5927,
        15 => 5594,
        16 => 5280,
        17 => 4984,
        18 => 4704,
        19 => 4440,
        20 => 4191,
        21 => 3955,
        22 => 3733,
        23 => 3524,
        24 => 3326,
        25 => 3139,
        26 => 2963,
        27 => 2797,
        28 => 2640,
        29 => 2492,
        30 => 2352,
        31 => 2220,
        32 => 2095,
        33 => 1977,
        34 => 1866,
        35 => 1762,
        36 => 1663,
        37 => 1569,
        38 => 1481,
        39 => 1398,
        40 => 1320,
        41 => 1246,
        42 => 1176,
        43 => 1110,
        44 => 1047,
        45 => 988,
        46 => 933,
        47 => 881,
        48 => 831,
        49 => 784,
        50 => 740,
        51 => 699,
        52 => 660,
        53 => 623,
        54 => 588,
        55 => 555,
        56 => 523,
        57 => 494,
        58 => 466,
        59 => 440,
        60 => 415,
        61 => 392,
        62 => 370,
        63 => 349,
        64 => 330,
        65 => 311,
        66 => 294,
        67 => 277,
        68 => 261,
        69 => 247,
        70 => 233,
        71 => 220,
        72 => 207,
        73 => 196,
        74 => 185,
        75 => 174,
        76 => 165,
        77 => 155,
        78 => 147,
        79 => 138,
        80 => 130,
        81 => 123,
        82 => 116,
        83 => 110,
        84 => 103,
        85 => 98,
        86 => 92,
        87 => 87,
        88 => 82,
        89 => 77,
        90 => 73,
        91 => 69,
        92 => 65,
        93 => 61,
        94 => 58,
        95 => 55,
        96 => 51,
        97 => 49,
        98 => 46,
        99 => 43,
        100 => 41,
        101 => 38,
        102 => 36,
        103 => 34,
        104 => 32,
        105 => 30,
        106 => 29,
        107 => 27,
        108 => 25,
        109 => 24,
        110 => 23,
        111 => 21,
        112 => 20,
        113 => 19,
        114 => 18,
        115 => 17,
        116 => 16,
        117 => 15,
        118 => 14,
        119 => 13,
        120 => 12,
        121 => 12,
        122 => 11,
        123 => 10,
        124 => 10,
        125 => 9,
        126 => 9,
        127 => 8,
        128 => 8,
        129 => 7,
        130 => 7,
        131 => 6,
        132 => 6,
        133 => 6,
        134 => 5,
        135 => 5,
        136 => 5,
        137 => 4,
        138 => 4,
        139 => 4,
        140 => 4,
        141 => 3,
        142 => 3,
        143 => 3,
        144 => 3,
        145 => 3,
        146 => 2,
        147 => 2,
        148 => 2,
        149 => 2,
        150 => 2,
        151 => 2,
        152 => 2,
        153 => 1,
        154 => 1,
        155 => 1,
        156 => 1,
        157 => 1,
        158 => 1,
        159 => 1,
        160 => 1,
        161 => 1,
        162 => 1,
        163 => 1,
        164 => 1,
        _ => 0,
    }
}

/// The table holds, for each note from 1 to 165, the largest period that
/// reaches it; no period reaches note 166.
proof fn lemma_thresholds()
    ensures
        forall|i: int| 0 <= i < 165 ==> note_reached(#[trigger] spec_threshold(i) as nat, (i + 1) as nat)
            && !note_reached((spec_threshold(i) + 1) as nat, (i + 1) as nat),
        !note_reached(1, 166),
{
    assert(p24(13696) == 1897797787524255933919089951121627810790913022996694890147617218756604336362586857695024767047827456) by (nonlinear_arith);
    assert(p24(1) == 1) by (nonlinear_arith);
    assert(scale(1) == 2) by { reveal_with_fuel(scale, 2); }
    assert(scale(2) == 8) by { reveal_with_fuel(scale, 2); }
    assert(scale(3) == 32) by { reveal_with_fuel(scale, 2); }
    assert(scale(4) == 128) by { reveal_with_fuel(scale, 2); }
    assert(scale(5) == 512) by { reveal_with_fuel(scale, 2); }
    assert(scale(6) == 2048) by { reveal_with_fuel(scale, 2); }
    assert(scale(7) == 8192) by { reveal_with_fuel(scale, 2); }
    assert(scale(8) == 32768) by { reveal_with_fuel(scale, 2); }
    assert(scale(9) == 131072) by { reveal_with_fuel(scale, 2); }
    assert(scale(10) == 524288) by { reveal_with_fuel(scale, 2); }
    assert(scale(11) == 2097152) by { reveal_with_fuel(scale, 2); }
    assert(scale(12) == 8388608) by { reveal_with_fuel(scale, 2); }
    assert(scale(13) == 33554432) by { reveal_with_fuel(scale, 2); }
    assert(scale(14) == 134217728) by { reveal_with_fuel(scale, 2); }
    assert(scale(15) == 536870912) by { reveal_with_fuel(scale, 2); }
    assert(scale(16) == 2147483648) by { reveal_with_fuel(scale, 2); }
    assert(scale(17) == 8589934592) by { reveal_with_fuel(scale, 2); }
    assert(scale(18) == 34359738368) by { reveal_with_fuel(scale, 2); }
    assert(scale(19) == 137438953472) by { reveal_with_fuel(scale, 2); }
    assert(scale(20) == 549755813888) by { reveal_with_fuel(scale, 2); }
    assert(scale(21) == 2199023255552) by { reveal_with_fuel(scale, 2); }
    assert(scale(22) == 8796093022208) by { reveal_with_fuel(scale, 2); }
    assert(scale(23) == 35184372088832) by { reveal_with_fuel(scale, 2); }
    assert(scale(24) == 140737488355328) by { reveal_with_fuel(scale, 2); }
    assert(scale(25) == 562949953421312) by { reveal_with_fuel(scale, 2); }
    assert(scale(26) == 2251799813685248) by { reveal_with_fuel(scale, 2); }
    assert(scale(27) == 9007199254740992) by { reveal_with_fuel(scale, 2); }
    assert(scale(28) == 36028797018963968) by { reveal_with_fuel(scale, 2); }
    assert(scale(29) == 144115188075855872) by { reveal_with_fuel(scale, 2); }
    assert(scale(30) == 576460752303423488) by { reveal_with_fuel(scale, 2); }
    assert(scale(31) == 2305843009213693952) by { reveal_with_fuel(scale, 2); }
    assert(scale(32) == 9223372036854775808) by { reveal_with_fuel(scale, 2); }
    assert(scale(33) == 36893488147419103232) by { reveal_with_fuel(scale, 2); }
    assert(scale(34) == 147573952589676412928) by { reveal_with_fuel(scale, 2); }
    assert(scale(35) == 590295810358705651712) by { reveal_with_fuel(scale, 2); }
    assert(scale(36) == 2361183241434822606848) by { reveal_with_fuel(scale, 2); }
    assert(scale(37) == 9444732965739290427392) by { reveal_with_fuel(scale, 2); }
    assert(scale(38) == 37778931862957161709568) by { reveal_with_fuel(scale, 2); }
    assert(scale(39) == 151115727451828646838272) by { reveal_with_fuel(scale, 2); }
    assert(scale(40) == 604462909807314587353088) by { reveal_with_fuel(scale, 2); }
    assert(scale(41) == 2417851639229258349412352) by { reveal_with_fuel(scale, 2); }
    assert(scale(42) == 9671406556917033397649408) by { reveal_with_fuel(scale, 2); }
    assert(scale(43) == 38685626227668133590597632) by { reveal_with_fuel(scale, 2); }
    assert(scale(44) == 154742504910672534362390528) by { reveal_with_fuel(scale, 2); }
    assert(scale(45) == 618970019642690137449562112) by { reveal_with_fuel(scale, 2); }
    assert(scale(46) == 2475880078570760549798248448) by { reveal_with_fuel(scale, 2); }
    assert(scale(47) == 9903520314283042199192993792) by { reveal_with_fuel(scale, 2); }
    assert(scale(48) == 39614081257132168796771975168) by { reveal_with_fuel(scale, 2); }
    assert(scale(49) == 158456325028528675187087900672) by { reveal_with_fuel(scale, 2); }
    assert(scale(50) == 633825300114114700748351602688) by { reveal_with_fuel(scale, 2); }
    assert(scale(51) == 2535301200456458802993406410752) by { reveal_with_fuel(scale, 2); }
    assert(scale(52) == 10141204801825835211973625643008) by { reveal_with_fuel(scale, 2); }
    assert(scale(53) == 40564819207303340847894502572032) by { reveal_with_fuel(scale, 2); }
    assert(scale(54) == 162259276829213363391578010288128) by { reveal_with_fuel(scale, 2); }
    assert(scale(55) == 649037107316853453566312041152512) by { reveal_with_fuel(scale, 2); }
    assert(scale(56) == 2596148429267413814265248164610048) by { reveal_with_fuel(scale, 2); }
    assert(scale(57) == 10384593717069655257060992658440192) by { reveal_with_fuel(scale, 2); }
    assert(scale(58) == 41538374868278621028243970633760768) by { reveal_with_fuel(scale, 2); }
    assert(scale(59) == 166153499473114484112975882535043072) by { reveal_with_fuel(scale, 2); }
    assert(scale(60) == 664613997892457936451903530140172288) by { reveal_with_fuel(scale, 2); }
    assert(scale(61) == 2658455991569831745807614120560689152) by { reveal_with_fuel(scale, 2); }
    assert(scale(62) == 10633823966279326983230456482242756608) by { reveal_with_fuel(scale, 2); }
    assert(scale(63) == 42535295865117307932921825928971026432) by { reveal_with_fuel(scale, 2); }
    assert(scale(64) == 170141183460469231731687303715884105728) by { reveal_with_fuel(scale, 2); }
    assert(scale(65) == 680564733841876926926749214863536422912) by { reveal_with_fuel(scale, 2); }
    assert(scale(66) == 2722258935367507707706996859454145691648) by { reveal_with_fuel(scale, 2); }
    assert(scale(67) == 10889035741470030830827987437816582766592) by { reveal_with_fuel(scale, 2); }
    assert(scale(68) == 43556142965880123323311949751266331066368) by { reveal_with_fuel(scale, 2); }
    assert(scale(69) == 174224571863520493293247799005065324265472) by { reveal_with_fuel(scale, 2); }
    assert(scale(70) == 696898287454081973172991196020261297061888) by { reveal_with_fuel(scale, 2); }
    assert(scale(71) == 2787593149816327892691964784081045188247552) by { reveal_with_fuel(scale, 2); }
    assert(scale(72) == 11150372599265311570767859136324180752990208) by { reveal_with_fuel(scale, 2); }
    assert(scale(73) == 44601490397061246283071436545296723011960832) by { reveal_with_fuel(scale, 2); }
    assert(scale(74) == 178405961588244985132285746181186892047843328) by { reveal_with_fuel(scale, 2); }
    assert(scale(75) == 713623846352979940529142984724747568191373312) by { reveal_with_fuel(scale, 2); }
    assert(scale(76) == 2854495385411919762116571938898990272765493248) by { reveal_with_fuel(scale, 2); }
    assert(scale(77) == 11417981541647679048466287755595961091061972992) by { reveal_with_fuel(scale, 2); }
    assert(scale(78) == 45671926166590716193865151022383844364247891968) by { reveal_with_fuel(scale, 2); }
    assert(scale(79) == 182687704666362864775460604089535377456991567872) by { reveal_with_fuel(scale, 2); }
    assert(scale(80) == 730750818665451459101842416358141509827966271488) by { reveal_with_fuel(scale, 2); }
    assert(scale(81) == 2923003274661805836407369665432566039311865085952) by { reveal_with_fuel(scale, 2); }
    assert(scale(82) == 11692013098647223345629478661730264157247460343808) by { reveal_with_fuel(scale, 2); }
    assert(scale(83) == 46768052394588893382517914646921056628989841375232) by { reveal_with_fuel(scale, 2); }
    assert(scale(84) == 187072209578355573530071658587684226515959365500928) by { reveal_with_fuel(scale, 2); }
    assert(scale(85) == 748288838313422294120286634350736906063837462003712) by { reveal_with_fuel(scale, 2); }
    assert(scale(86) == 2993155353253689176481146537402947624255349848014848) by { reveal_with_fuel(scale, 2); }
    assert(scale(87) == 11972621413014756705924586149611790497021399392059392) by { reveal_with_fuel(scale, 2); }
    assert(scale(88) == 47890485652059026823698344598447161988085597568237568) by { reveal_with_fuel(scale, 2); }
    assert(scale(89) == 191561942608236107294793378393788647952342390272950272) by { reveal_with_fuel(scale, 2); }
    assert(scale(90) == 766247770432944429179173513575154591809369561091801088) by { reveal_with_fuel(scale, 2); }
    assert(scale(91) == 3064991081731777716716694054300618367237478244367204352) by { reveal_with_fuel(scale, 2); }
    assert(scale(92) == 12259964326927110866866776217202473468949912977468817408) by { reveal_with_fuel(scale, 2); }
    assert(scale(93) == 49039857307708443467467104868809893875799651909875269632) by { reveal_with_fuel(scale, 2); }
    assert(scale(94) == 196159429230833773869868419475239575503198607639501078528) by { reveal_with_fuel(scale, 2); }
    assert(scale(95) == 784637716923335095479473677900958302012794430558004314112) by { reveal_with_fuel(scale, 2); }
    assert(scale(96) == 3138550867693340381917894711603833208051177722232017256448) by { reveal_with_fuel(scale, 2); }
    assert(scale(97) == 12554203470773361527671578846415332832204710888928069025792) by { reveal_with_fuel(scale, 2); }
    assert(scale(98) == 50216813883093446110686315385661331328818843555712276103168) by { reveal_with_fuel(scale, 2); }
    assert(scale(99) == 200867255532373784442745261542645325315275374222849104412672) by { reveal_with_fuel(scale, 2); }
    assert(scale(100) == 803469022129495137770981046170581301261101496891396417650688) by { reveal_with_fuel(scale, 2); }
    assert(scale(101) == 3213876088517980551083924184682325205044405987565585670602752) by { reveal_with_fuel(scale, 2); }
    assert(scale(102) == 12855504354071922204335696738729300820177623950262342682411008) by { reveal_with_fuel(scale, 2); }
    assert(scale(103) == 51422017416287688817342786954917203280710495801049370729644032) by { reveal_with_fuel(scale, 2); }
    assert(scale(104) == 205688069665150755269371147819668813122841983204197482918576128) by { reveal_with_fuel(scale, 2); }
    assert(scale(105) == 822752278660603021077484591278675252491367932816789931674304512) by { reveal_with_fuel(scale, 2); }
    assert(scale(106) == 3291009114642412084309938365114701009965471731267159726697218048) by { reveal_with_fuel(scale, 2); }
    assert(scale(107) == 13164036458569648337239753460458804039861886925068638906788872192) by { reveal_with_fuel(scale, 2); }
    assert(scale(108) == 52656145834278593348959013841835216159447547700274555627155488768) by { reveal_with_fuel(scale, 2); }
    assert(scale(109) == 210624583337114373395836055367340864637790190801098222508621955072) by { reveal_with_fuel(scale, 2); }
    assert(scale(110) == 842498333348457493583344221469363458551160763204392890034487820288) by { reveal_with_fuel(scale, 2); }
    assert(scale(111) == 3369993333393829974333376885877453834204643052817571560137951281152) by { reveal_with_fuel(scale, 2); }
    assert(scale(112) == 13479973333575319897333507543509815336818572211270286240551805124608) by { reveal_with_fuel(scale, 2); }
    assert(scale(113) == 53919893334301279589334030174039261347274288845081144962207220498432) by { reveal_with_fuel(scale, 2); }
    assert(scale(114) == 215679573337205118357336120696157045389097155380324579848828881993728) by { reveal_with_fuel(scale, 2); }
    assert(scale(115) == 862718293348820473429344482784628181556388621521298319395315527974912) by { reveal_with_fuel(scale, 2); }
    assert(scale(116) == 3450873173395281893717377931138512726225554486085193277581262111899648) by { reveal_with_fuel(scale, 2); }
    assert(scale(117) == 13803492693581127574869511724554050904902217944340773110325048447598592) by { reveal_with_fuel(scale, 2); }
    assert(scale(118) == 55213970774324510299478046898216203619608871777363092441300193790394368) by { reveal_with_fuel(scale, 2); }
    assert(scale(119) == 220855883097298041197912187592864814478435487109452369765200775161577472) by { reveal_with_fuel(scale, 2); }
    assert(scale(120) == 883423532389192164791648750371459257913741948437809479060803100646309888) by { reveal_with_fuel(scale, 2); }
    assert(scale(121) == 3533694129556768659166595001485837031654967793751237916243212402585239552) by { reveal_with_fuel(scale, 2); }
    assert(scale(122) == 14134776518227074636666380005943348126619871175004951664972849610340958208) by { reveal_with_fuel(scale, 2); }
    assert(scale(123) == 56539106072908298546665520023773392506479484700019806659891398441363832832) by { reveal_with_fuel(scale, 2); }
    assert(scale(124) == 226156424291633194186662080095093570025917938800079226639565593765455331328) by { reveal_with_fuel(scale, 2); }
    assert(scale(125) == 904625697166532776746648320380374280103671755200316906558262375061821325312) by { reveal_with_fuel(scale, 2); }
    assert(scale(126) == 3618502788666131106986593281521497120414687020801267626233049500247285301248) by { reveal_with_fuel(scale, 2); }
    assert(scale(127) == 14474011154664524427946373126085988481658748083205070504932198000989141204992) by { reveal_with_fuel(scale, 2); }
    assert(scale(128) == 57896044618658097711785492504343953926634992332820282019728792003956564819968) by { reveal_with_fuel(scale, 2); }
    assert(scale(129) == 231584178474632390847141970017375815706539969331281128078915168015826259279872) by { reveal_with_fuel(scale, 2); }
    assert(scale(130) == 926336713898529563388567880069503262826159877325124512315660672063305037119488) by { reveal_with_fuel(scale, 2); }
    assert(scale(131) == 3705346855594118253554271520278013051304639509300498049262642688253220148477952) by { reveal_with_fuel(scale, 2); }
    assert(scale(132) == 14821387422376473014217086081112052205218558037201992197050570753012880593911808) by { reveal_with_fuel(scale, 2); }
    assert(scale(133) == 59285549689505892056868344324448208820874232148807968788202283012051522375647232) by { reveal_with_fuel(scale, 2); }
    assert(scale(134) == 237142198758023568227473377297792835283496928595231875152809132048206089502588928) by { reveal_with_fuel(scale, 2); }
    assert(scale(135) == 948568795032094272909893509191171341133987714380927500611236528192824358010355712) by { reveal_with_fuel(scale, 2); }
    assert(scale(136) == 3794275180128377091639574036764685364535950857523710002444946112771297432041422848) by { reveal_with_fuel(scale, 2); }
    assert(scale(137) == 15177100720513508366558296147058741458143803430094840009779784451085189728165691392) by { reveal_with_fuel(scale, 2); }
    assert(scale(138) == 60708402882054033466233184588234965832575213720379360039119137804340758912662765568) by { reveal_with_fuel(scale, 2); }
    assert(scale(139) == 242833611528216133864932738352939863330300854881517440156476551217363035650651062272) by { reveal_with_fuel(scale, 2); }
    assert(scale(140) == 971334446112864535459730953411759453321203419526069760625906204869452142602604249088) by { reveal_with_fuel(scale, 2); }
    assert(scale(141) == 3885337784451458141838923813647037813284813678104279042503624819477808570410416996352) by { reveal_with_fuel(scale, 2); }
    assert(scale(142) == 15541351137805832567355695254588151253139254712417116170014499277911234281641667985408) by { reveal_with_fuel(scale, 2); }
    assert(scale(143) == 62165404551223330269422781018352605012557018849668464680057997111644937126566671941632) by { reveal_with_fuel(scale, 2); }
    assert(scale(144) == 248661618204893321077691124073410420050228075398673858720231988446579748506266687766528) by { reveal_with_fuel(scale, 2); }
    assert(scale(145) == 994646472819573284310764496293641680200912301594695434880927953786318994025066751066112) by { reveal_with_fuel(scale, 2); }
    assert(scale(146) == 3978585891278293137243057985174566720803649206378781739523711815145275976100267004264448) by { reveal_with_fuel(scale, 2); }
    assert(scale(147) == 15914343565113172548972231940698266883214596825515126958094847260581103904401068017057792) by { reveal_with_fuel(scale, 2); }
    assert(scale(148) == 63657374260452690195888927762793067532858387302060507832379389042324415617604272068231168) by { reveal_with_fuel(scale, 2); }
    assert(scale(149) == 254629497041810760783555711051172270131433549208242031329517556169297662470417088272924672) by { reveal_with_fuel(scale, 2); }
    assert(scale(150) == 1018517988167243043134222844204689080525734196832968125318070224677190649881668353091698688) by { reveal_with_fuel(scale, 2); }
    assert(scale(151) == 4074071952668972172536891376818756322102936787331872501272280898708762599526673412366794752) by { reveal_with_fuel(scale, 2); }
    assert(scale(152) == 16296287810675888690147565507275025288411747149327490005089123594835050398106693649467179008) by { reveal_with_fuel(scale, 2); }
    assert(scale(153) == 65185151242703554760590262029100101153646988597309960020356494379340201592426774597868716032) by { reveal_with_fuel(scale, 2); }
    assert(scale(154) == 260740604970814219042361048116400404614587954389239840081425977517360806369707098391474864128) by { reveal_with_fuel(scale, 2); }
    assert(scale(155) == 1042962419883256876169444192465601618458351817556959360325703910069443225478828393565899456512) by { reveal_with_fuel(scale, 2); }
    assert(scale(156) == 4171849679533027504677776769862406473833407270227837441302815640277772901915313574263597826048) by { reveal_with_fuel(scale, 2); }
    assert(scale(157) == 16687398718132110018711107079449625895333629080911349765211262561111091607661254297054391304192) by { reveal_with_fuel(scale, 2); }
    assert(scale(158) == 66749594872528440074844428317798503581334516323645399060845050244444366430645017188217565216768) by { reveal_with_fuel(scale, 2); }
    assert(scale(159) == 266998379490113760299377713271194014325338065294581596243380200977777465722580068752870260867072) by { reveal_with_fuel(scale, 2); }
    assert(scale(160) == 1067993517960455041197510853084776057301352261178326384973520803911109862890320275011481043468288) by { reveal_with_fuel(scale, 2); }
    assert(scale(161) == 4271974071841820164790043412339104229205409044713305539894083215644439451561281100045924173873152) by { reveal_with_fuel(scale, 2); }
    assert(scale(162) == 17087896287367280659160173649356416916821636178853222159576332862577757806245124400183696695492608) by { reveal_with_fuel(scale, 2); }
    assert(scale(163) == 68351585149469122636640694597425667667286544715412888638305331450311031224980497600734786781970432) by { reveal_with_fuel(scale, 2); }
    assert(scale(164) == 273406340597876490546562778389702670669146178861651554553221325801244124899921990402939147127881728) by { reveal_with_fuel(scale, 2); }
    assert(scale(165) == 1093625362391505962186251113558810682676584715446606218212885303204976499599687961611756588511526912) by { reveal_with_fuel(scale, 2); }
    assert(scale(166) == 4374501449566023848745004454235242730706338861786424872851541212819905998398751846447026354046107648) by { reveal_with_fuel(scale, 2); }
    assert(4374501449566023848745004454235242730706338861786424872851541212819905998398751846447026354046107648 * 1 > 1897797787524255933919089951121627810790913022996694890147617218756604336362586857695024767047827456);
    assert forall|i: int| 0 <= i < 165 implies note_reached(#[trigger] spec_threshold(i) as nat, (i + 1) as nat)
            && !note_reached((spec_threshold(i) + 1) as nat, (i + 1) as nat) by {
        if i == 0 {
            assert(spec_threshold(i) == 13306);
            assert(p24(13306) == 948725248484463370781674219620911093434010549658809646907412870165795920836314213015521330091524096) by (nonlinear_arith);
            assert(p24(13307) == 950437941688135893518534450073831981326158243584064722505637902942223132065391754113064109259460001) by (nonlinear_arith);
            assert(2 * 948725248484463370781674219620911093434010549658809646907412870165795920836314213015521330091524096 <= 1897797787524255933919089951121627810790913022996694890147617218756604336362586857695024767047827456);
            assert(2 * 950437941688135893518534450073831981326158243584064722505637902942223132065391754113064109259460001 > 1897797787524255933919089951121627810790913022996694890147617218756604336362586857695024767047827456);
        } else if i == 1 {
            assert(spec_threshold(i) == 12559);
            assert(p24(12559) == 237094484154419528592588473085770215983207988852194548937914068292827264769187427491982129401068161) by (nonlinear_arith);
            assert(p24(12560) == 237547982133262555429271240826080387134098408090036557623230762648806096896000000000000000000000000) by (nonlinear_arith);
            assert(8 * 237094484154419528592588473085770215983207988852194548937914068292827264769187427491982129401068161 <= 1897797787524255933919089951121627810790913022996694890147617218756604336362586857695024767047827456);
            assert(8 * 237547982133262555429271240826080387134098408090036557623230762648806096896000000000000000000000000 > 1897797787524255933919089951121627810790913022996694890147617218756604336362586857695024767047827456);
        } else if i == 2 {
            assert(spec_threshold(i) == 11854);
            assert(p24(11854) == 59259522767689521280577104286198568344060508113796985567338080433121379874977382075748179830112256) by (nonlinear_arith);
            assert(p24(11855) == 59379618022998086289637054380990821730536285942667970664641708096592568167105512678623199462890625) by (nonlinear_arith);
            assert(32 * 59259522767689521280577104286198568344060508113796985567338080433121379874977382075748179830112256 <= 1897797787524255933919089951121627810790913022996694890147617218756604336362586857695024767047827456);
            assert(32 * 59379618022998086289637054380990821730536285942667970664641708096592568167105512678623199462890625 > 1897797787524255933919089951121627810790913022996694890147617218756604336362586857695024767047827456);
        } else if i == 3 {
            assert(spec_threshold(i) == 11189);
            assert(p24(11189) == 14824859030829433383904928343746653245888960698573214423714715867263377728444267643613317637419041) by (nonlinear_arith);
            assert(p24(11190) == 14856690520914720280271888952096319602359624162129700172963894137702475521000000000000000000000000) by (nonlinear_arith);
            assert(128 * 14824859030829433383904928343746653245888960698573214423714715867263377728444267643613317637419041 <= 1897797787524255933919089951121627810790913022996694890147617218756604336362586857695024767047827456);
            assert(128 * 14856690520914720280271888952096319602359624162129700172963894137702475521000000000000000000000000 > 1897797787524255933919089951121627810790913022996694890147617218756604336362586857695024767047827456);
        } else if i == 4 {
            assert(spec_threshold(i) == 10561);
            assert(p24(10561) == 3706133190933260258246843648312781306101729477481160497275831478420842921610557357172881728151041) by (nonlinear_arith);
            assert(p24(10562) == 3714564600794370319923758008904277045434458988724258976096307403804123245577554715061539240411136) by (nonlinear_arith);
            assert(512 * 3706133190933260258246843648312781306101729477481160497275831478420842921610557357172881728151041 <= 1897797787524255933919089951121627810790913022996694890147617218756604336362586857695024767047827456);
            assert(512 * 3714564600794370319923758008904277045434458988724258976096307403804123245577554715061539240411136 > 1897797787524255933919089951121627810790913022996694890147617218756604336362586857695024767047827456);
        } else if i == 5 {
            assert(spec_threshold(i) == 9968);
            assert(p24(9968) == 925961017666222013779670422196720782104319340271116721523889447458253346792366989705620096024576) by (nonlinear_arith);
            assert(p24(9969) == 928193032299388720184896871003562176045631842650690394060933639551109064454454209162104279317121) by (nonlinear_arith);
            assert(2048 * 925961017666222013779670422196720782104319340271116721523889447458253346792366989705620096024576 <= 1897797787524255933919089951121627810790913022996694890147617218756604336362586857695024767047827456);
            assert(2048 * 928193032299388720184896871003562176045631842650690394060933639551109064454454209162104279317121 > 1897797787524255933919089951121627810790913022996694890147617218756604336362586857695024767047827456);
        } else if i == 6 {
            assert(spec_threshold(i) == 9408);
            assert(p24(9408) == 231172095399580827704274400636310448857256575895462901960673872350438613506388927007055094480896) by (nonlinear_arith);
            assert(p24(9409) == 231762541553201825348798189709564263222224841836230743257098437043630734406642352221907479605761) by (nonlinear_arith);
            assert(8192 * 231172095399580827704274400636310448857256575895462901960673872350438613506388927007055094480896 <= 1897797787524255933919089951121627810790913022996694890147617218756604336362586857695024767047827456);
            assert(8192 * 231762541553201825348798189709564263222224841836230743257098437043630734406642352221907479605761 > 1897797787524255933919089951121627810790913022996694890147617218756604336362586857695024767047827456);
        } else if i == 7 {
            assert(spec_threshold(i) == 8880);
            assert(p24(8880) == 57797782808204253963555092186372187161475130598330796767679773971316736000000000000000000000000) by (nonlinear_arith);
            assert(p24(8881) == 57954195498449319058394538583681071931475236785000768894336277576559623082064958890065168315521) by (nonlinear_arith);
            assert(32768 * 57797782808204253963555092186372187161475130598330796767679773971316736000000000000000000000000 <= 1897797787524255933919089951121627810790913022996694890147617218756604336362586857695024767047827456);
            assert(32768 * 57954195498449319058394538583681071931475236785000768894336277576559623082064958890065168315521 > 1897797787524255933919089951121627810790913022996694890147617218756604336362586857695024767047827456);
        } else if i == 8 {
            assert(spec_threshold(i) == 8382);
            assert(p24(8382) == 14465843287301231133303460117818580772355843306036281672628992611633802882919849257821878091776) by (nonlinear_arith);
            assert(p24(8383) == 14507319901816919471499366543819766260203732445705099955763721678610731437026443047279716216321) by (nonlinear_arith);
            assert(131072 * 14465843287301231133303460117818580772355843306036281672628992611633802882919849257821878091776 <= 1897797787524255933919089951121627810790913022996694890147617218756604336362586857695024767047827456);
            assert(131072 * 14507319901816919471499366543819766260203732445705099955763721678610731437026443047279716216321 > 1897797787524255933919089951121627810790913022996694890147617218756604336362586857695024767047827456);
        } else if i == 9 {
            assert(spec_threshold(i) == 7911);
            assert(p24(7911) == 3610382607072072142940749500853972325276468938558896642347047247314501693604216646815489349441) by (nonlinear_arith);
            assert(p24(7912) == 3621351543857368625005900233753945946027700178983209551099741345054985591809419558224276750336) by (nonlinear_arith);
            assert(524288 * 3610382607072072142940749500853972325276468938558896642347047247314501693604216646815489349441 <= 1897797787524255933919089951121627810790913022996694890147617218756604336362586857695024767047827456);
            assert(524288 * 3621351543857368625005900233753945946027700178983209551099741345054985591809419558224276750336 > 1897797787524255933919089951121627810790913022996694890147617218756604336362586857695024767047827456);
        } else if i == 10 {
            assert(spec_threshold(i) == 7467);
            assert(p24(7467) == 902625569214805687047626245595651667122811494228645508809339689479640842363548810948772511521) by (nonlinear_arith);
            assert(p24(7468) == 905531208677827291603131229030124808962360233018001413908385758308653189679933054480942104576) by (nonlinear_arith);
            assert(2097152 * 902625569214805687047626245595651667122811494228645508809339689479640842363548810948772511521 <= 1897797787524255933919089951121627810790913022996694890147617218756604336362586857695024767047827456);
            assert(2097152 * 905531208677827291603131229030124808962360233018001413908385758308653189679933054480942104576 > 1897797787524255933919089951121627810790913022996694890147617218756604336362586857695024767047827456);
        } else if i == 11 {
            assert(spec_threshold(i) == 7048);
            assert(p24(7048) == 225725950107127537314753747949702620434604612690941968834933352229798889743271972523386863616) by (nonlinear_arith);
            assert(p24(7049) == 226495852412061941592973814173463347399767268685466655452000605293672112365448994483717220801) by (nonlinear_arith);
            assert(8388608 * 225725950107127537314753747949702620434604612690941968834933352229798889743271972523386863616 <= 1897797787524255933919089951121627810790913022996694890147617218756604336362586857695024767047827456);
            assert(8388608 * 226495852412061941592973814173463347399767268685466655452000605293672112365448994483717220801 > 1897797787524255933919089951121627810790913022996694890147617218756604336362586857695024767047827456);
        } else if i == 12 {
            assert(spec_threshold(i) == 6653);
            assert(p24(6653) == 56548431425360642122130049444491332378030452111888506824219993958818669369001043618650515681) by (nonlinear_arith);
            assert(p24(6654) == 56752776962147352594937279257589906945911191614816066942777100617021853996510066182566445056) by (nonlinear_arith);
            assert(33554432 * 56548431425360642122130049444491332378030452111888506824219993958818669369001043618650515681 <= 1897797787524255933919089951121627810790913022996694890147617218756604336362586857695024767047827456);
            assert(33554432 * 56752776962147352594937279257589906945911191614816066942777100617021853996510066182566445056 > 1897797787524255933919089951121627810790913022996694890147617218756604336362586857695024767047827456);
        } else if i == 13 {
            assert(spec_threshold(i) == 6279);
            assert(p24(6279) == 14104951377617733212080268308361460141987425955901130432761069300174069317864212046776559681) by (nonlinear_arith);
            assert(p24(6280) == 14158963092163953508691265632276558109170103555323872424556658425856000000000000000000000000) by (nonlinear_arith);
            assert(134217728 * 14104951377617733212080268308361460141987425955901130432761069300174069317864212046776559681 <= 1897797787524255933919089951121627810790913022996694890147617218756604336362586857695024767047827456);
            assert(134217728 * 14158963092163953508691265632276558109170103555323872424556658425856000000000000000000000000 > 1897797787524255933919089951121627810790913022996694890147617218756604336362586857695024767047827456);
        } else if i == 14 {
            assert(spec_threshold(i) == 5927);
            assert(p24(5927) == 3532142804127307014499730127227221032623082882988273237188940074033819429575048808798085441) by (nonlinear_arith);
            assert(p24(5928) == 3546473175432415807091866591557228983763729071499216163862831281174686408510655886845280256) by (nonlinear_arith);
            assert(536870912 * 3532142804127307014499730127227221032623082882988273237188940074033819429575048808798085441 <= 1897797787524255933919089951121627810790913022996694890147617218756604336362586857695024767047827456);
            assert(536870912 * 3546473175432415807091866591557228983763729071499216163862831281174686408510655886845280256 > 1897797787524255933919089951121627810790913022996694890147617218756604336362586857695024767047827456);
        } else if i == 15 {
            assert(spec_threshold(i) == 5594);
            assert(p24(5594) == 881737047793907773872848145613290626646632457637388001059718265861361414296002366848106496) by (nonlinear_arith);
            assert(p24(5595) == 885527761037035005108826694017429328105427274830919514475100883108525009214878082275390625) by (nonlinear_arith);
            assert(2147483648 * 881737047793907773872848145613290626646632457637388001059718265861361414296002366848106496 <= 1897797787524255933919089951121627810790913022996694890147617218756604336362586857695024767047827456);
            assert(2147483648 * 885527761037035005108826694017429328105427274830919514475100883108525009214878082275390625 > 1897797787524255933919089951121627810790913022996694890147617218756604336362586857695024767047827456);
        } else if i == 16 {
            assert(spec_threshold(i) == 5280);
            assert(p24(5280) == 220401294423280080336393482356947741251689543681792525599617581056000000000000000000000000) by (nonlinear_arith);
            assert(p24(5281) == 221405303525589127536044002110020938243535696788088022237796032655484869812581224147173121) by (nonlinear_arith);
            assert(8589934592 * 220401294423280080336393482356947741251689543681792525599617581056000000000000000000000000 <= 1897797787524255933919089951121627810790913022996694890147617218756604336362586857695024767047827456);
            assert(8589934592 * 221405303525589127536044002110020938243535696788088022237796032655484869812581224147173121 > 1897797787524255933919089951121627810790913022996694890147617218756604336362586857695024767047827456);
        } else if i == 17 {
            assert(spec_threshold(i) == 4984);
            assert(p24(4984) == 55191577533854366170148278605742501145858725325531764121287432161465486692927300316430336) by (nonlinear_arith);
            assert(p24(4985) == 55457961706810972354233218565696650892420827239778844033542658461432962477207183837890625) by (nonlinear_arith);
            assert(34359738368 * 55191577533854366170148278605742501145858725325531764121287432161465486692927300316430336 <= 1897797787524255933919089951121627810790913022996694890147617218756604336362586857695024767047827456);
            assert(34359738368 * 55457961706810972354233218565696650892420827239778844033542658461432962477207183837890625 > 1897797787524255933919089951121627810790913022996694890147617218756604336362586857695024767047827456);
        } else if i == 18 {
            assert(spec_threshold(i) == 4704);
            assert(p24(4704) == 13778930628274728518979215659875300458506141656366759655515782377149976104878719270649856) by (nonlinear_arith);
            assert(p24(4705) == 13849403428976580809401719878499937580741496272290013948312245930461416304111480712890625) by (nonlinear_arith);
            assert(137438953472 * 13778930628274728518979215659875300458506141656366759655515782377149976104878719270649856 <= 1897797787524255933919089951121627810790913022996694890147617218756604336362586857695024767047827456);
            assert(137438953472 * 13849403428976580809401719878499937580741496272290013948312245930461416304111480712890625 > 1897797787524255933919089951121627810790913022996694890147617218756604336362586857695024767047827456);
        } else if i == 19 {
            assert(spec_threshold(i) == 4440);
            assert(p24(4440) == 3445016313088193772051041852615606019584842359920191572170244096000000000000000000000000) by (nonlinear_arith);
            assert(p24(4441) == 3463686334551272691877248886391444840112933427597192357668552240343167831288923340836161) by (nonlinear_arith);
            assert(549755813888 * 3445016313088193772051041852615606019584842359920191572170244096000000000000000000000000 <= 1897797787524255933919089951121627810790913022996694890147617218756604336362586857695024767047827456);
            assert(549755813888 * 3463686334551272691877248886391444840112933427597192357668552240343167831288923340836161 > 1897797787524255933919089951121627810790913022996694890147617218756604336362586857695024767047827456);
        } else if i == 20 {
            assert(spec_threshold(i) == 4191);
            assert(p24(4191) == 862231450516058870154825456012402818939438063266055683650314367510903053457727984060161) by (nonlinear_arith);
            assert(p24(4192) == 867182640421807451675092968149081985849633749137858620182951962606440721542105945604096) by (nonlinear_arith);
            assert(2199023255552 * 862231450516058870154825456012402818939438063266055683650314367510903053457727984060161 <= 1897797787524255933919089951121627810790913022996694890147617218756604336362586857695024767047827456);
            assert(2199023255552 * 867182640421807451675092968149081985849633749137858620182951962606440721542105945604096 > 1897797787524255933919089951121627810790913022996694890147617218756604336362586857695024767047827456);
        } else if i == 21 {
            assert(spec_threshold(i) == 3955);
            assert(p24(3955) == 214543671277003086910847235833983278749257647967305794485560713760051786899566650390625) by (nonlinear_arith);
            assert(p24(3956) == 215849372378430880606526150331136342646342526613665196365102609697281455505455706013696) by (nonlinear_arith);
            assert(8796093022208 * 214543671277003086910847235833983278749257647967305794485560713760051786899566650390625 <= 1897797787524255933919089951121627810790913022996694890147617218756604336362586857695024767047827456);
            assert(8796093022208 * 215849372378430880606526150331136342646342526613665196365102609697281455505455706013696 > 1897797787524255933919089951121627810790913022996694890147617218756604336362586857695024767047827456);
        } else if i == 22 {
            assert(spec_threshold(i) == 3733);
            assert(p24(3733) == 53628019451461526299103749932249158738087559917199070674251831921506547575225208697121) by (nonlinear_arith);
            assert(p24(3734) == 53973866026272016263194753469832230148456110538125122422479734319964241366382423310336) by (nonlinear_arith);
            assert(35184372088832 * 53628019451461526299103749932249158738087559917199070674251831921506547575225208697121 <= 1897797787524255933919089951121627810790913022996694890147617218756604336362586857695024767047827456);
            assert(35184372088832 * 53973866026272016263194753469832230148456110538125122422479734319964241366382423310336 > 1897797787524255933919089951121627810790913022996694890147617218756604336362586857695024767047827456);
        } else if i == 23 {
            assert(spec_threshold(i) == 3524);
            assert(p24(3524) == 13454315072722884256527051207405484940684116643127320339377722277033262833551882059776) by (nonlinear_arith);
            assert(p24(3525) == 13546244556548241427286417361786379673678482010604401608588887029327452182769775390625) by (nonlinear_arith);
            assert(140737488355328 * 13454315072722884256527051207405484940684116643127320339377722277033262833551882059776 <= 1897797787524255933919089951121627810790913022996694890147617218756604336362586857695024767047827456);
            assert(140737488355328 * 13546244556548241427286417361786379673678482010604401608588887029327452182769775390625 > 1897797787524255933919089951121627810790913022996694890147617218756604336362586857695024767047827456);
        } else if i == 24 {
            assert(spec_threshold(i) == 3326);
            assert(p24(3326) == 3358411259004102856991503690536093795358092686730754972154743037385706564637138354176) by (nonlinear_arith);
            assert(p24(3327) == 3382729110845765626128749803161019500846337772298816856311386860431543230802420746241) by (nonlinear_arith);
            assert(562949953421312 * 3358411259004102856991503690536093795358092686730754972154743037385706564637138354176 <= 1897797787524255933919089951121627810790913022996694890147617218756604336362586857695024767047827456);
            assert(562949953421312 * 3382729110845765626128749803161019500846337772298816856311386860431543230802420746241 > 1897797787524255933919089951121627810790913022996694890147617218756604336362586857695024767047827456);
        } else if i == 25 {
            assert(spec_threshold(i) == 3139);
            assert(p24(3139) == 837513038293084055795372650993913844707788011620931606936816569869180822366192278241) by (nonlinear_arith);
            assert(p24(3140) == 843939965496298879903034307496342546294337722976438547644416000000000000000000000000) by (nonlinear_arith);
            assert(2251799813685248 * 837513038293084055795372650993913844707788011620931606936816569869180822366192278241 <= 1897797787524255933919089951121627810790913022996694890147617218756604336362586857695024767047827456);
            assert(2251799813685248 * 843939965496298879903034307496342546294337722976438547644416000000000000000000000000 > 1897797787524255933919089951121627810790913022996694890147617218756604336362586857695024767047827456);
        } else if i == 26 {
            assert(spec_threshold(i) == 2963);
            assert(p24(2963) == 209681268616633281468264695974393252868266233749412736473067494867317643116884932961) by (nonlinear_arith);
            assert(p24(2964) == 211386273827100742285958921406103908047898356407834062806536631654184246570507042816) by (nonlinear_arith);
            assert(9007199254740992 * 209681268616633281468264695974393252868266233749412736473067494867317643116884932961 <= 1897797787524255933919089951121627810790913022996694890147617218756604336362586857695024767047827456);
            assert(9007199254740992 * 211386273827100742285958921406103908047898356407834062806536631654184246570507042816 > 1897797787524255933919089951121627810790913022996694890147617218756604336362586857695024767047827456);
        } else if i == 27 {
            assert(spec_threshold(i) == 2797);
            assert(p24(2797) == 52555623519057498805096634960966743626989868738495588365776435486159408944606922081) by (nonlinear_arith);
            assert(p24(2798) == 53008442477380175524133543306339636054485138470218094492131146421504635119773679616) by (nonlinear_arith);
            assert(36028797018963968 * 52555623519057498805096634960966743626989868738495588365776435486159408944606922081 <= 1897797787524255933919089951121627810790913022996694890147617218756604336362586857695024767047827456);
            assert(36028797018963968 * 53008442477380175524133543306339636054485138470218094492131146421504635119773679616 > 1897797787524255933919089951121627810790913022996694890147617218756604336362586857695024767047827456);
        } else if i == 28 {
            assert(spec_threshold(i) == 2640);
            assert(p24(2640) == 13136940862135891934418289801892503574591251831161530351616000000000000000000000000) by (nonlinear_arith);
            assert(p24(2641) == 13256889275304048282365753385423835843275322573113875943003271979949622933875288961) by (nonlinear_arith);
            assert(144115188075855872 * 13136940862135891934418289801892503574591251831161530351616000000000000000000000000 <= 1897797787524255933919089951121627810790913022996694890147617218756604336362586857695024767047827456);
            assert(144115188075855872 * 13256889275304048282365753385423835843275322573113875943003271979949622933875288961 > 1897797787524255933919089951121627810790913022996694890147617218756604336362586857695024767047827456);
        } else if i == 29 {
            assert(spec_threshold(i) == 2492);
            assert(p24(2492) == 3289674373498819242128627217158228227249307949872718103008713255015938680942493696) by (nonlinear_arith);
            assert(p24(2493) == 3321503268106934079053116310262733485048255690377756648284565512886087660110834401) by (nonlinear_arith);
            assert(576460752303423488 * 3289674373498819242128627217158228227249307949872718103008713255015938680942493696 <= 1897797787524255933919089951121627810790913022996694890147617218756604336362586857695024767047827456);
            assert(576460752303423488 * 3321503268106934079053116310262733485048255690377756648284565512886087660110834401 > 1897797787524255933919089951121627810790913022996694890147617218756604336362586857695024767047827456);
        } else if i == 30 {
            assert(spec_threshold(i) == 2352);
            assert(p24(2352) == 821288265483065159259987810842710760742791989825174787969337843486665255122108416) by (nonlinear_arith);
            assert(p24(2353) == 829709862080980398870782936622479266274253324712526220108163435553083098718769281) by (nonlinear_arith);
            assert(2305843009213693952 * 821288265483065159259987810842710760742791989825174787969337843486665255122108416 <= 1897797787524255933919089951121627810790913022996694890147617218756604336362586857695024767047827456);
            assert(2305843009213693952 * 829709862080980398870782936622479266274253324712526220108163435553083098718769281 > 1897797787524255933919089951121627810790913022996694890147617218756604336362586857695024767047827456);
        } else if i == 31 {
            assert(spec_threshold(i) == 2220);
            assert(p24(2220) == 205338973587047682526769748486018539642384192938816045056000000000000000000000000) by (nonlinear_arith);
            assert(p24(2221) == 207570391841024649936904924520925315807834916815765306855013260597945491024803681) by (nonlinear_arith);
            assert(9223372036854775808 * 205338973587047682526769748486018539642384192938816045056000000000000000000000000 <= 1897797787524255933919089951121627810790913022996694890147617218756604336362586857695024767047827456);
            assert(9223372036854775808 * 207570391841024649936904924520925315807834916815765306855013260597945491024803681 > 1897797787524255933919089951121627810790913022996694890147617218756604336362586857695024767047827456);
        } else if i == 32 {
            assert(spec_threshold(i) == 2095);
            assert(p24(2095) == 51099500541050471942739430615250445805485223023535727830095548689365386962890625) by (nonlinear_arith);
            assert(p24(2096) == 51688113237727132539456663617437004199602231331936038743433473265554947945005056) by (nonlinear_arith);
            assert(36893488147419103232 * 51099500541050471942739430615250445805485223023535727830095548689365386962890625 <= 1897797787524255933919089951121627810790913022996694890147617218756604336362586857695024767047827456);
            assert(36893488147419103232 * 51688113237727132539456663617437004199602231331936038743433473265554947945005056 > 1897797787524255933919089951121627810790913022996694890147617218756604336362586857695024767047827456);
        } else if i == 33 {
            assert(spec_threshold(i) == 1977);
            assert(p24(1977) == 12710424741715485932213659260485325586916672840098016745353524171368677265727041) by (nonlinear_arith);
            assert(p24(1978) == 12865625165607385671527752299972554603001029885629725239581025224762049645510656) by (nonlinear_arith);
            assert(147573952589676412928 * 12710424741715485932213659260485325586916672840098016745353524171368677265727041 <= 1897797787524255933919089951121627810790913022996694890147617218756604336362586857695024767047827456);
            assert(147573952589676412928 * 12865625165607385671527752299972554603001029885629725239581025224762049645510656 > 1897797787524255933919089951121627810790913022996694890147617218756604336362586857695024767047827456);
        } else if i == 34 {
            assert(spec_threshold(i) == 1866);
            assert(p24(1866) == 3175991605380943538455032548576318411790384672930667101265501353303533458292736) by (nonlinear_arith);
            assert(p24(1867) == 3217093111650467888307258693565859207418925198204822684674247164724125943564321) by (nonlinear_arith);
            assert(590295810358705651712 * 3175991605380943538455032548576318411790384672930667101265501353303533458292736 <= 1897797787524255933919089951121627810790913022996694890147617218756604336362586857695024767047827456);
            assert(590295810358705651712 * 3217093111650467888307258693565859207418925198204822684674247164724125943564321 > 1897797787524255933919089951121627810790913022996694890147617218756604336362586857695024767047827456);
        } else if i == 35 {
            assert(spec_threshold(i) == 1762);
            assert(p24(1762) == 801939670605831399949017239058344658653981485553224106989963190378741194817536) by (nonlinear_arith);
            assert(p24(1763) == 812934388220624149291571368915878410367044968262553232730299137329731029819361) by (nonlinear_arith);
            assert(2361183241434822606848 * 801939670605831399949017239058344658653981485553224106989963190378741194817536 <= 1897797787524255933919089951121627810790913022996694890147617218756604336362586857695024767047827456);
            assert(2361183241434822606848 * 812934388220624149291571368915878410367044968262553232730299137329731029819361 > 1897797787524255933919089951121627810790913022996694890147617218756604336362586857695024767047827456);
        } else if i == 36 {
            assert(spec_threshold(i) == 1663);
            assert(p24(1663) == 200176910102611950456589680346017706117516320152923761138602676235777530946561) by (nonlinear_arith);
            assert(p24(1664) == 203085878949534199342157687399515222872350774843103597721849981440310971990016) by (nonlinear_arith);
            assert(9444732965739290427392 * 200176910102611950456589680346017706117516320152923761138602676235777530946561 <= 1897797787524255933919089951121627810790913022996694890147617218756604336362586857695024767047827456);
            assert(9444732965739290427392 * 203085878949534199342157687399515222872350774843103597721849981440310971990016 > 1897797787524255933919089951121627810790913022996694890147617218756604336362586857695024767047827456);
        } else if i == 37 {
            assert(spec_threshold(i) == 1569);
            assert(p24(1569) == 49539389025864761549141680413680841725270495844955221545082616419768066302721) by (nonlinear_arith);
            assert(p24(1570) == 50302741855162315362872738092919739859958751379039201000000000000000000000000) by (nonlinear_arith);
            assert(37778931862957161709568 * 49539389025864761549141680413680841725270495844955221545082616419768066302721 <= 1897797787524255933919089951121627810790913022996694890147617218756604336362586857695024767047827456);
            assert(37778931862957161709568 * 50302741855162315362872738092919739859958751379039201000000000000000000000000 > 1897797787524255933919089951121627810790913022996694890147617218756604336362586857695024767047827456);
        } else if i == 38 {
            assert(spec_threshold(i) == 1481);
            assert(p24(1481) == 12397137111798084959794525500837156676687636849647594560614722329501654953921) by (nonlinear_arith);
            assert(p24(1482) == 12599603761857792275307114208108419659608504558076504636200465658556476030976) by (nonlinear_arith);
            assert(151115727451828646838272 * 12397137111798084959794525500837156676687636849647594560614722329501654953921 <= 1897797787524255933919089951121627810790913022996694890147617218756604336362586857695024767047827456);
            assert(151115727451828646838272 * 12599603761857792275307114208108419659608504558076504636200465658556476030976 > 1897797787524255933919089951121627810790913022996694890147617218756604336362586857695024767047827456);
        } else if i == 39 {
            assert(spec_threshold(i) == 1398);
            assert(p24(1398) == 3105790189860929492109882974381598872549786396745122556534855881532339388416) by (nonlinear_arith);
            assert(p24(1399) == 3159549383960972757585855919500567677884408144367819696195789958328284926401) by (nonlinear_arith);
            assert(604462909807314587353088 * 3105790189860929492109882974381598872549786396745122556534855881532339388416 <= 1897797787524255933919089951121627810790913022996694890147617218756604336362586857695024767047827456);
            assert(604462909807314587353088 * 3159549383960972757585855919500567677884408144367819696195789958328284926401 > 1897797787524255933919089951121627810790913022996694890147617218756604336362586857695024767047827456);
        } else if i == 40 {
            assert(spec_threshold(i) == 1320);
            assert(p24(1320) == 783022693522923704053061592691689942752793540427776000000000000000000000000) by (nonlinear_arith);
            assert(p24(1321) == 797384194107618699710719205320519188805773944251301287137732981474370726081) by (nonlinear_arith);
            assert(2417851639229258349412352 * 783022693522923704053061592691689942752793540427776000000000000000000000000 <= 1897797787524255933919089951121627810790913022996694890147617218756604336362586857695024767047827456);
            assert(2417851639229258349412352 * 797384194107618699710719205320519188805773944251301287137732981474370726081 > 1897797787524255933919089951121627810790913022996694890147617218756604336362586857695024767047827456);
        } else if i == 41 {
            assert(spec_threshold(i) == 1246);
            assert(p24(1246) == 196079872459102823861159516403569473460275408618016129911465242804046790656) by (nonlinear_arith);
            assert(p24(1247) == 199891756142714539267424908603445873768028952996086034234553499404383476481) by (nonlinear_arith);
            assert(9671406556917033397649408 * 196079872459102823861159516403569473460275408618016129911465242804046790656 <= 1897797787524255933919089951121627810790913022996694890147617218756604336362586857695024767047827456);
            assert(9671406556917033397649408 * 199891756142714539267424908603445873768028952996086034234553499404383476481 > 1897797787524255933919089951121627810790913022996694890147617218756604336362586857695024767047827456);
        } else if i == 42 {
            assert(spec_threshold(i) == 1176);
            assert(p24(1176) == 48952595322314808324574697663945601030754565586160110710223784654537752576) by (nonlinear_arith);
            assert(p24(1177) == 49961458524451586439259679978222939017143605055982595214234065413074373441) by (nonlinear_arith);
            assert(38685626227668133590597632 * 48952595322314808324574697663945601030754565586160110710223784654537752576 <= 1897797787524255933919089951121627810790913022996694890147617218756604336362586857695024767047827456);
            assert(38685626227668133590597632 * 49961458524451586439259679978222939017143605055982595214234065413074373441 > 1897797787524255933919089951121627810790913022996694890147617218756604336362586857695024767047827456);
        } else if i == 43 {
            assert(spec_threshold(i) == 1110);
            assert(p24(1110) == 12239156579199295194552525787712248542450916346241000000000000000000000000) by (nonlinear_arith);
            assert(p24(1111) == 12506546857249890514160606007371472677518147587832082355845729295868290241) by (nonlinear_arith);
            assert(154742504910672534362390528 * 12239156579199295194552525787712248542450916346241000000000000000000000000 <= 1897797787524255933919089951121627810790913022996694890147617218756604336362586857695024767047827456);
            assert(154742504910672534362390528 * 12506546857249890514160606007371472677518147587832082355845729295868290241 > 1897797787524255933919089951121627810790913022996694890147617218756604336362586857695024767047827456);
        } else if i == 44 {
            assert(spec_threshold(i) == 1047);
            assert(p24(1047) == 3011066591476397336809220513306435015767966873131484818406493924959206081) by (nonlinear_arith);
            assert(p24(1048) == 3080851628644891532627145267572224390483035524602892323937027052972015616) by (nonlinear_arith);
            assert(618970019642690137449562112 * 3011066591476397336809220513306435015767966873131484818406493924959206081 <= 1897797787524255933919089951121627810790913022996694890147617218756604336362586857695024767047827456);
            assert(618970019642690137449562112 * 3080851628644891532627145267572224390483035524602892323937027052972015616 > 1897797787524255933919089951121627810790913022996694890147617218756604336362586857695024767047827456);
        } else if i == 45 {
            assert(spec_threshold(i) == 988);
            assert(p24(988) == 748456682190254627449610814085822477407666543681700681955723652194369536) by (nonlinear_arith);
            assert(p24(989) == 766851017809354404898151892421993887603344314433915927385152889773967841) by (nonlinear_arith);
            assert(2475880078570760549798248448 * 748456682190254627449610814085822477407666543681700681955723652194369536 <= 1897797787524255933919089951121627810790913022996694890147617218756604336362586857695024767047827456);
            assert(2475880078570760549798248448 * 766851017809354404898151892421993887603344314433915927385152889773967841 > 1897797787524255933919089951121627810790913022996694890147617218756604336362586857695024767047827456);
        } else if i == 46 {
            assert(spec_threshold(i) == 933);
            assert(p24(933) == 189303851448353739884795698438663388001345674570242589787572702962370721) by (nonlinear_arith);
            assert(p24(934) == 194233899606321430381532657431196203356252708300795122013434219421761536) by (nonlinear_arith);
            assert(9903520314283042199192993792 * 189303851448353739884795698438663388001345674570242589787572702962370721 <= 1897797787524255933919089951121627810790913022996694890147617218756604336362586857695024767047827456);
            assert(9903520314283042199192993792 * 194233899606321430381532657431196203356252708300795122013434219421761536 > 1897797787524255933919089951121627810790913022996694890147617218756604336362586857695024767047827456);
        } else if i == 47 {
            assert(spec_threshold(i) == 881);
            assert(p24(881) == 47799329197754347321332528535028973737596361968113428770897578619643521) by (nonlinear_arith);
            assert(p24(882) == 49118607160008807394547119651977843107868323301707797187063943083851776) by (nonlinear_arith);
            assert(39614081257132168796771975168 * 47799329197754347321332528535028973737596361968113428770897578619643521 <= 1897797787524255933919089951121627810790913022996694890147617218756604336362586857695024767047827456);
            assert(39614081257132168796771975168 * 49118607160008807394547119651977843107868323301707797187063943083851776 > 1897797787524255933919089951121627810790913022996694890147617218756604336362586857695024767047827456);
        } else if i == 48 {
            assert(spec_threshold(i) == 831);
            assert(p24(831) == 11760467086736103303066187176287034842043545797401342328921716787704321) by (nonlinear_arith);
            assert(p24(832) == 12104861673684966524968009436101628713151858737653708322158454742450176) by (nonlinear_arith);
            assert(158456325028528675187087900672 * 11760467086736103303066187176287034842043545797401342328921716787704321 <= 1897797787524255933919089951121627810790913022996694890147617218756604336362586857695024767047827456);
            assert(158456325028528675187087900672 * 12104861673684966524968009436101628713151858737653708322158454742450176 > 1897797787524255933919089951121627810790913022996694890147617218756604336362586857695024767047827456);
        } else if i == 49 {
            assert(spec_threshold(i) == 784);
            assert(p24(784) == 2907940421940663515824806155298782206844250695979227198119001127387136) by (nonlinear_arith);
            assert(p24(785) == 2998277059505123815707727556998714200255796395482969343662261962890625) by (nonlinear_arith);
            assert(633825300114114700748351602688 * 2907940421940663515824806155298782206844250695979227198119001127387136 <= 1897797787524255933919089951121627810790913022996694890147617218756604336362586857695024767047827456);
            assert(633825300114114700748351602688 * 2998277059505123815707727556998714200255796395482969343662261962890625 > 1897797787524255933919089951121627810790913022996694890147617218756604336362586857695024767047827456);
        } else if i == 50 {
            assert(spec_threshold(i) == 740);
            assert(p24(740) == 727044968970026748378706689217733311464472576000000000000000000000000) by (nonlinear_arith);
            assert(p24(741) == 750994906536209122854895246512199619985133681182652988207367995891361) by (nonlinear_arith);
            assert(2535301200456458802993406410752 * 727044968970026748378706689217733311464472576000000000000000000000000 <= 1897797787524255933919089951121627810790913022996694890147617218756604336362586857695024767047827456);
            assert(2535301200456458802993406410752 * 750994906536209122854895246512199619985133681182652988207367995891361 > 1897797787524255933919089951121627810790913022996694890147617218756604336362586857695024767047827456);
        } else if i == 51 {
            assert(spec_threshold(i) == 699);
            assert(p24(699) == 185119521013553708321445165537691049131738328739710006507328503223201) by (nonlinear_arith);
            assert(p24(700) == 191581231380566414401000000000000000000000000000000000000000000000000) by (nonlinear_arith);
            assert(10141204801825835211973625643008 * 185119521013553708321445165537691049131738328739710006507328503223201 <= 1897797787524255933919089951121627810790913022996694890147617218756604336362586857695024767047827456);
            assert(10141204801825835211973625643008 * 191581231380566414401000000000000000000000000000000000000000000000000 > 1897797787524255933919089951121627810790913022996694890147617218756604336362586857695024767047827456);
        } else if i == 52 {
            assert(spec_threshold(i) == 660);
            assert(p24(660) == 46671789498503428939167356055479642316865536000000000000000000000000) by (nonlinear_arith);
            assert(p24(661) == 48398848341067945736034983126046209028727188063614981681815865905441) by (nonlinear_arith);
            assert(40564819207303340847894502572032 * 46671789498503428939167356055479642316865536000000000000000000000000 <= 1897797787524255933919089951121627810790913022996694890147617218756604336362586857695024767047827456);
            assert(40564819207303340847894502572032 * 48398848341067945736034983126046209028727188063614981681815865905441 > 1897797787524255933919089951121627810790913022996694890147617218756604336362586857695024767047827456);
        } else if i == 53 {
            assert(spec_threshold(i) == 623);
            assert(p24(623) == 11687271145528723231623143935416309443728650129915245170084550547841) by (nonlinear_arith);
            assert(p24(624) == 12145912619365144887470067013138280689562407033005536842004746469376) by (nonlinear_arith);
            assert(162259276829213363391578010288128 * 11687271145528723231623143935416309443728650129915245170084550547841 <= 1897797787524255933919089951121627810790913022996694890147617218756604336362586857695024767047827456);
            assert(162259276829213363391578010288128 * 12145912619365144887470067013138280689562407033005536842004746469376 > 1897797787524255933919089951121627810790913022996694890147617218756604336362586857695024767047827456);
        } else if i == 54 {
            assert(spec_threshold(i) == 588);
            assert(p24(588) == 2917802055020022888456266979214286865636978482375151557339655438336) by (nonlinear_arith);
            assert(p24(589) == 3039254545436706577745071197201949076565314493293978238650095225441) by (nonlinear_arith);
            assert(649037107316853453566312041152512 * 2917802055020022888456266979214286865636978482375151557339655438336 <= 1897797787524255933919089951121627810790913022996694890147617218756604336362586857695024767047827456);
            assert(649037107316853453566312041152512 * 3039254545436706577745071197201949076565314493293978238650095225441 > 1897797787524255933919089951121627810790913022996694890147617218756604336362586857695024767047827456);
        } else if i == 55 {
            assert(spec_threshold(i) == 555);
            assert(p24(555) == 729510580253559064540417539340987714675123473777830600738525390625) by (nonlinear_arith);
            assert(p24(556) == 761719367238303295033797768647972635676368918596272054709671428096) by (nonlinear_arith);
            assert(2596148429267413814265248164610048 * 729510580253559064540417539340987714675123473777830600738525390625 <= 1897797787524255933919089951121627810790913022996694890147617218756604336362586857695024767047827456);
            assert(2596148429267413814265248164610048 * 761719367238303295033797768647972635676368918596272054709671428096 > 1897797787524255933919089951121627810790913022996694890147617218756604336362586857695024767047827456);
        } else if i == 56 {
            assert(spec_threshold(i) == 523);
            assert(p24(523) == 175404419959445160681241773969431966371866007739670938036384747041) by (nonlinear_arith);
            assert(p24(524) == 183633066931062432088085726950897240071477623260193605657638731776) by (nonlinear_arith);
            assert(10384593717069655257060992658440192 * 175404419959445160681241773969431966371866007739670938036384747041 <= 1897797787524255933919089951121627810790913022996694890147617218756604336362586857695024767047827456);
            assert(10384593717069655257060992658440192 * 183633066931062432088085726950897240071477623260193605657638731776 > 1897797787524255933919089951121627810790913022996694890147617218756604336362586857695024767047827456);
        } else if i == 57 {
            assert(spec_threshold(i) == 494);
            assert(p24(494) == 44611494671717561927414584999431519353846701603037159559471824896) by (nonlinear_arith);
            assert(p24(495) == 46830066490603623487054668987764940978323147153913974761962890625) by (nonlinear_arith);
            assert(41538374868278621028243970633760768 * 44611494671717561927414584999431519353846701603037159559471824896 <= 1897797787524255933919089951121627810790913022996694890147617218756604336362586857695024767047827456);
            assert(41538374868278621028243970633760768 * 46830066490603623487054668987764940978323147153913974761962890625 > 1897797787524255933919089951121627810790913022996694890147617218756604336362586857695024767047827456);
        } else if i == 58 {
            assert(spec_threshold(i) == 466);
            assert(p24(466) == 10996690461480350908262775276829417601687510934881222185122267136) by (nonlinear_arith);
            assert(p24(467) == 11577242589373673819394866074990999898687166470336623311843527521) by (nonlinear_arith);
            assert(166153499473114484112975882535043072 * 10996690461480350908262775276829417601687510934881222185122267136 <= 1897797787524255933919089951121627810790913022996694890147617218756604336362586857695024767047827456);
            assert(166153499473114484112975882535043072 * 11577242589373673819394866074990999898687166470336623311843527521 > 1897797787524255933919089951121627810790913022996694890147617218756604336362586857695024767047827456);
        } else if i == 59 {
            assert(spec_threshold(i) == 440);
            assert(p24(440) == 2772453275529134737960082842514354077696000000000000000000000000) by (nonlinear_arith);
            assert(p24(441) == 2927697131634283506545252779244055933229227262837159465972420161) by (nonlinear_arith);
            assert(664613997892457936451903530140172288 * 2772453275529134737960082842514354077696000000000000000000000000 <= 1897797787524255933919089951121627810790913022996694890147617218756604336362586857695024767047827456);
            assert(664613997892457936451903530140172288 * 2927697131634283506545252779244055933229227262837159465972420161 > 1897797787524255933919089951121627810790913022996694890147617218756604336362586857695024767047827456);
        } else if i == 60 {
            assert(spec_threshold(i) == 415);
            assert(p24(415) == 681011304519834224181188168355068369517329092085361480712890625) by (nonlinear_arith);
            assert(p24(416) == 721505980115232856569767560726501268932334109404904146323111936) by (nonlinear_arith);
            assert(2658455991569831745807614120560689152 * 681011304519834224181188168355068369517329092085361480712890625 <= 1897797787524255933919089951121627810790913022996694890147617218756604336362586857695024767047827456);
            assert(2658455991569831745807614120560689152 * 721505980115232856569767560726501268932334109404904146323111936 > 1897797787524255933919089951121627810790913022996694890147617218756604336362586857695024767047827456);
        } else if i == 61 {
            assert(spec_threshold(i) == 392);
            assert(p24(392) == 173326755877772779215860733705686462333455723284436893351018496) by (nonlinear_arith);
            assert(p24(393) == 184255817628995586245503776102814572938547159872300170861361601) by (nonlinear_arith);
            assert(10633823966279326983230456482242756608 * 173326755877772779215860733705686462333455723284436893351018496 <= 1897797787524255933919089951121627810790913022996694890147617218756604336362586857695024767047827456);
            assert(10633823966279326983230456482242756608 * 184255817628995586245503776102814572938547159872300170861361601 > 1897797787524255933919089951121627810790913022996694890147617218756604336362586857695024767047827456);
        } else if i == 62 {
            assert(spec_threshold(i) == 370);
            assert(p24(370) == 43335257111193343900365036083324748961000000000000000000000000) by (nonlinear_arith);
            assert(p24(371) == 46235316059198824159344551470961943053812302586560576924125281) by (nonlinear_arith);
            assert(42535295865117307932921825928971026432 * 43335257111193343900365036083324748961000000000000000000000000 <= 1897797787524255933919089951121627810790913022996694890147617218756604336362586857695024767047827456);
            assert(42535295865117307932921825928971026432 * 46235316059198824159344551470961943053812302586560576924125281 > 1897797787524255933919089951121627810790913022996694890147617218756604336362586857695024767047827456);
        } else if i == 63 {
            assert(spec_threshold(i) == 349);
            assert(p24(349) == 10661302033043424533740455929429688662988444049400142167301601) by (nonlinear_arith);
            assert(p24(350) == 11419131242070580387175083160400390625000000000000000000000000) by (nonlinear_arith);
            assert(170141183460469231731687303715884105728 * 10661302033043424533740455929429688662988444049400142167301601 <= 1897797787524255933919089951121627810790913022996694890147617218756604336362586857695024767047827456);
            assert(170141183460469231731687303715884105728 * 11419131242070580387175083160400390625000000000000000000000000 > 1897797787524255933919089951121627810790913022996694890147617218756604336362586857695024767047827456);
        } else if i == 64 {
            assert(spec_threshold(i) == 330);
            assert(p24(330) == 2781855434090103443811378243892171521000000000000000000000000) by (nonlinear_arith);
            assert(p24(331) == 2991381824798445479729942049372614908475615922839237843212321) by (nonlinear_arith);
            assert(680564733841876926926749214863536422912 * 2781855434090103443811378243892171521000000000000000000000000 <= 1897797787524255933919089951121627810790913022996694890147617218756604336362586857695024767047827456);
            assert(680564733841876926926749214863536422912 * 2991381824798445479729942049372614908475615922839237843212321 > 1897797787524255933919089951121627810790913022996694890147617218756604336362586857695024767047827456);
        } else if i == 65 {
            assert(spec_threshold(i) == 311);
            assert(p24(311) == 670269313213594629950660264627548730298146774906835491375041) by (nonlinear_arith);
            assert(p24(312) == 723952807150193744151000202485220473382616462290617039323136) by (nonlinear_arith);
            assert(2722258935367507707706996859454145691648 * 670269313213594629950660264627548730298146774906835491375041 <= 1897797787524255933919089951121627810790913022996694890147617218756604336362586857695024767047827456);
            assert(2722258935367507707706996859454145691648 * 723952807150193744151000202485220473382616462290617039323136 > 1897797787524255933919089951121627810790913022996694890147617218756604336362586857695024767047827456);
        } else if i == 66 {
            assert(spec_threshold(i) == 294);
            assert(p24(294) == 173914555014373236206547437859433106519995837353178951581696) by (nonlinear_arith);
            assert(p24(295) == 188681093041313809565292379198813039205560743808746337890625) by (nonlinear_arith);
            assert(10889035741470030830827987437816582766592 * 173914555014373236206547437859433106519995837353178951581696 <= 1897797787524255933919089951121627810790913022996694890147617218756604336362586857695024767047827456);
            assert(10889035741470030830827987437816582766592 * 188681093041313809565292379198813039205560743808746337890625 > 1897797787524255933919089951121627810790913022996694890147617218756604336362586857695024767047827456);
        } else if i == 67 {
            assert(spec_threshold(i) == 277);
            assert(p24(277) == 41640358275796944170909437142153558531030140360305109220641) by (nonlinear_arith);
            assert(p24(278) == 45402012302774387302028999844072618226788575565592769069056) by (nonlinear_arith);
            assert(43556142965880123323311949751266331066368 * 41640358275796944170909437142153558531030140360305109220641 <= 1897797787524255933919089951121627810790913022996694890147617218756604336362586857695024767047827456);
            assert(43556142965880123323311949751266331066368 * 45402012302774387302028999844072618226788575565592769069056 > 1897797787524255933919089951121627810790913022996694890147617218756604336362586857695024767047827456);
        } else if i == 68 {
            assert(spec_threshold(i) == 261);
            assert(p24(261) == 9985554264922335502067293574731192047067814654917548647841) by (nonlinear_arith);
            assert(p24(262) == 10945383723441507344727857527190282349078513578188038209536) by (nonlinear_arith);
            assert(174224571863520493293247799005065324265472 * 9985554264922335502067293574731192047067814654917548647841 <= 1897797787524255933919089951121627810790913022996694890147617218756604336362586857695024767047827456);
            assert(174224571863520493293247799005065324265472 * 10945383723441507344727857527190282349078513578188038209536 > 1897797787524255933919089951121627810790913022996694890147617218756604336362586857695024767047827456);
        } else if i == 69 {
            assert(spec_threshold(i) == 247);
            assert(p24(247) == 2659052292806956882918750345673055610289973116102049324481) by (nonlinear_arith);
            assert(p24(248) == 2929815955691576613268447681138460760425409845869429129216) by (nonlinear_arith);
            assert(696898287454081973172991196020261297061888 * 2659052292806956882918750345673055610289973116102049324481 <= 1897797787524255933919089951121627810790913022996694890147617218756604336362586857695024767047827456);
            assert(696898287454081973172991196020261297061888 * 2929815955691576613268447681138460760425409845869429129216 > 1897797787524255933919089951121627810790913022996694890147617218756604336362586857695024767047827456);
        } else if i == 70 {
            assert(spec_threshold(i) == 233);
            assert(p24(233) == 655453828661462718740867094804609871011228021078182589121) by (nonlinear_arith);
            assert(p24(234) == 726407932054755184871598643995717603696049613431778574336) by (nonlinear_arith);
            assert(2787593149816327892691964784081045188247552 * 655453828661462718740867094804609871011228021078182589121 <= 1897797787524255933919089951121627810790913022996694890147617218756604336362586857695024767047827456);
            assert(2787593149816327892691964784081045188247552 * 726407932054755184871598643995717603696049613431778574336 > 1897797787524255933919089951121627810790913022996694890147617218756604336362586857695024767047827456);
        } else if i == 71 {
            assert(spec_threshold(i) == 220);
            assert(p24(220) == 165251092644282265779977014214656000000000000000000000000) by (nonlinear_arith);
            assert(p24(221) == 184253000292127827231348602178101114108998871506964275681) by (nonlinear_arith);
            assert(11150372599265311570767859136324180752990208 * 165251092644282265779977014214656000000000000000000000000 <= 1897797787524255933919089951121627810790913022996694890147617218756604336362586857695024767047827456);
            assert(11150372599265311570767859136324180752990208 * 184253000292127827231348602178101114108998871506964275681 > 1897797787524255933919089951121627810790913022996694890147617218756604336362586857695024767047827456);
        } else if i == 72 {
            assert(spec_threshold(i) == 207);
            assert(p24(207) == 38307895228951508723227833845852685618793029839969820801) by (nonlinear_arith);
            assert(p24(208) == 43005107648088506255732033296018914516707307660871991296) by (nonlinear_arith);
            assert(44601490397061246283071436545296723011960832 * 38307895228951508723227833845852685618793029839969820801 <= 1897797787524255933919089951121627810790913022996694890147617218756604336362586857695024767047827456);
            assert(44601490397061246283071436545296723011960832 * 43005107648088506255732033296018914516707307660871991296 > 1897797787524255933919089951121627810790913022996694890147617218756604336362586857695024767047827456);
        } else if i == 73 {
            assert(spec_threshold(i) == 196);
            assert(p24(196) == 10331079714165495587340637070279506584015829758908563456) by (nonlinear_arith);
            assert(p24(197) == 11673186598630578538556565100133681446610566511878526881) by (nonlinear_arith);
            assert(178405961588244985132285746181186892047843328 * 10331079714165495587340637070279506584015829758908563456 <= 1897797787524255933919089951121627810790913022996694890147617218756604336362586857695024767047827456);
            assert(178405961588244985132285746181186892047843328 * 11673186598630578538556565100133681446610566511878526881 > 1897797787524255933919089951121627810790913022996694890147617218756604336362586857695024767047827456);
        } else if i == 74 {
            assert(spec_threshold(i) == 185);
            assert(p24(185) == 2582982606362899774334730868537709055006504058837890625) by (nonlinear_arith);
            assert(p24(186) == 2939751774777512653292559267748397498638565008176316416) by (nonlinear_arith);
            assert(713623846352979940529142984724747568191373312 * 2582982606362899774334730868537709055006504058837890625 <= 1897797787524255933919089951121627810790913022996694890147617218756604336362586857695024767047827456);
            assert(713623846352979940529142984724747568191373312 * 2939751774777512653292559267748397498638565008176316416 > 1897797787524255933919089951121627810790913022996694890147617218756604336362586857695024767047827456);
        } else if i == 75 {
            assert(spec_threshold(i) == 174);
            assert(p24(174) == 593173797860173693632056543128896241454504960040370176) by (nonlinear_arith);
            assert(p24(175) == 680633261327182077597086617970489896833896636962890625) by (nonlinear_arith);
            assert(2854495385411919762116571938898990272765493248 * 593173797860173693632056543128896241454504960040370176 <= 1897797787524255933919089951121627810790913022996694890147617218756604336362586857695024767047827456);
            assert(2854495385411919762116571938898990272765493248 * 680633261327182077597086617970489896833896636962890625 > 1897797787524255933919089951121627810790913022996694890147617218756604336362586857695024767047827456);
        } else if i == 76 {
            assert(spec_threshold(i) == 165);
            assert(p24(165) == 165811504965430703390322818988095016539096832275390625) by (nonlinear_arith);
            assert(p24(166) == 191687641079413799400225869758933287758788804986535936) by (nonlinear_arith);
            assert(11417981541647679048466287755595961091061972992 * 165811504965430703390322818988095016539096832275390625 <= 1897797787524255933919089951121627810790913022996694890147617218756604336362586857695024767047827456);
            assert(11417981541647679048466287755595961091061972992 * 191687641079413799400225869758933287758788804986535936 > 1897797787524255933919089951121627810790913022996694890147617218756604336362586857695024767047827456);
        } else if i == 77 {
            assert(spec_threshold(i) == 155);
            assert(p24(155) == 36979476271005135070580270980188674986362457275390625) by (nonlinear_arith);
            assert(p24(156) == 43150949904334172257840645461393622957623986142314496) by (nonlinear_arith);
            assert(45671926166590716193865151022383844364247891968 * 36979476271005135070580270980188674986362457275390625 <= 1897797787524255933919089951121627810790913022996694890147617218756604336362586857695024767047827456);
            assert(45671926166590716193865151022383844364247891968 * 43150949904334172257840645461393622957623986142314496 > 1897797787524255933919089951121627810790913022996694890147617218756604336362586857695024767047827456);
        } else if i == 78 {
            assert(spec_threshold(i) == 147);
            assert(p24(147) == 10366115272901847136410918108191079289912929377149281) by (nonlinear_arith);
            assert(p24(148) == 12197790486123436283327211925650782796834732733628416) by (nonlinear_arith);
            assert(182687704666362864775460604089535377456991567872 * 10366115272901847136410918108191079289912929377149281 <= 1897797787524255933919089951121627810790913022996694890147617218756604336362586857695024767047827456);
            assert(182687704666362864775460604089535377456991567872 * 12197790486123436283327211925650782796834732733628416 > 1897797787524255933919089951121627810790913022996694890147617218756604336362586857695024767047827456);
        } else if i == 79 {
            assert(spec_threshold(i) == 138);
            assert(p24(138) == 2275611257835724024120814085258666557442369295220736) by (nonlinear_arith);
            assert(p24(139) == 2706170815394782263161480417494333876776014302110241) by (nonlinear_arith);
            assert(730750818665451459101842416358141509827966271488 * 2275611257835724024120814085258666557442369295220736 <= 1897797787524255933919089951121627810790913022996694890147617218756604336362586857695024767047827456);
            assert(730750818665451459101842416358141509827966271488 * 2706170815394782263161480417494333876776014302110241 > 1897797787524255933919089951121627810790913022996694890147617218756604336362586857695024767047827456);
        } else if i == 80 {
            assert(spec_threshold(i) == 130);
            assert(p24(130) == 542800770374370512771595361000000000000000000000000) by (nonlinear_arith);
            assert(p24(131) == 652395708766073426290026755761521002595336054455521) by (nonlinear_arith);
            assert(2923003274661805836407369665432566039311865085952 * 542800770374370512771595361000000000000000000000000 <= 1897797787524255933919089951121627810790913022996694890147617218756604336362586857695024767047827456);
            assert(2923003274661805836407369665432566039311865085952 * 652395708766073426290026755761521002595336054455521 > 1897797787524255933919089951121627810790913022996694890147617218756604336362586857695024767047827456);
        } else if i == 81 {
            assert(spec_threshold(i) == 123);
            assert(p24(123) == 143788010446775248848237875203163336494653562343841) by (nonlinear_arith);
            assert(p24(124) == 174630639296268022851255397864488408590877642981376) by (nonlinear_arith);
            assert(11692013098647223345629478661730264157247460343808 * 143788010446775248848237875203163336494653562343841 <= 1897797787524255933919089951121627810790913022996694890147617218756604336362586857695024767047827456);
            assert(11692013098647223345629478661730264157247460343808 * 174630639296268022851255397864488408590877642981376 > 1897797787524255933919089951121627810790913022996694890147617218756604336362586857695024767047827456);
        } else if i == 82 {
            assert(spec_threshold(i) == 116);
            assert(p24(116) == 35236417041352768637810442862109099905882035060736) by (nonlinear_arith);
            assert(p24(117) == 43297286752149771742319979905826902609828091468321) by (nonlinear_arith);
            assert(46768052394588893382517914646921056628989841375232 * 35236417041352768637810442862109099905882035060736 <= 1897797787524255933919089951121627810790913022996694890147617218756604336362586857695024767047827456);
            assert(46768052394588893382517914646921056628989841375232 * 43297286752149771742319979905826902609828091468321 > 1897797787524255933919089951121627810790913022996694890147617218756604336362586857695024767047827456);
        } else if i == 83 {
            assert(spec_threshold(i) == 110);
            assert(p24(110) == 9849732675807611094711841000000000000000000000000) by (nonlinear_arith);
            assert(p24(111) == 12239156579199295194552525787712248542450916346241) by (nonlinear_arith);
            assert(187072209578355573530071658587684226515959365500928 * 9849732675807611094711841000000000000000000000000 <= 1897797787524255933919089951121627810790913022996694890147617218756604336362586857695024767047827456);
            assert(187072209578355573530071658587684226515959365500928 * 12239156579199295194552525787712248542450916346241 > 1897797787524255933919089951121627810790913022996694890147617218756604336362586857695024767047827456);
        } else if i == 84 {
            assert(spec_threshold(i) == 103);
            assert(p24(103) == 2032794106460402682668537709613472275016051561281) by (nonlinear_arith);
            assert(p24(104) == 2563304164891749993308307724953825146955687264256) by (nonlinear_arith);
            assert(748288838313422294120286634350736906063837462003712 * 2032794106460402682668537709613472275016051561281 <= 1897797787524255933919089951121627810790913022996694890147617218756604336362586857695024767047827456);
            assert(748288838313422294120286634350736906063837462003712 * 2563304164891749993308307724953825146955687264256 > 1897797787524255933919089951121627810790913022996694890147617218756604336362586857695024767047827456);
        } else if i == 85 {
            assert(spec_threshold(i) == 98);
            assert(p24(98) == 615780336509078478058614556210011636258115158016) by (nonlinear_arith);
            assert(p24(99) == 785678140807218961624989385416233772020578757601) by (nonlinear_arith);
            assert(2993155353253689176481146537402947624255349848014848 * 615780336509078478058614556210011636258115158016 <= 1897797787524255933919089951121627810790913022996694890147617218756604336362586857695024767047827456);
            assert(2993155353253689176481146537402947624255349848014848 * 785678140807218961624989385416233772020578757601 > 1897797787524255933919089951121627810790913022996694890147617218756604336362586857695024767047827456);
        } else if i == 86 {
            assert(spec_threshold(i) == 92);
            assert(p24(92) == 135178572611190144939662572289356335008129744896) by (nonlinear_arith);
            assert(p24(93) == 175222860263437786894593195184969752945814431201) by (nonlinear_arith);
            assert(11972621413014756705924586149611790497021399392059392 * 135178572611190144939662572289356335008129744896 <= 1897797787524255933919089951121627810790913022996694890147617218756604336362586857695024767047827456);
            assert(11972621413014756705924586149611790497021399392059392 * 175222860263437786894593195184969752945814431201 > 1897797787524255933919089951121627810790913022996694890147617218756604336362586857695024767047827456);
        } else if i == 87 {
            assert(spec_threshold(i) == 87);
            assert(p24(87) == 35355913511525016643527540154987349596888122561) by (nonlinear_arith);
            assert(p24(88) == 46514047453459807791859709226757301461986574336) by (nonlinear_arith);
            assert(47890485652059026823698344598447161988085597568237568 * 35355913511525016643527540154987349596888122561 <= 1897797787524255933919089951121627810790913022996694890147617218756604336362586857695024767047827456);
            assert(47890485652059026823698344598447161988085597568237568 * 46514047453459807791859709226757301461986574336 > 1897797787524255933919089951121627810790913022996694890147617218756604336362586857695024767047827456);
        } else if i == 88 {
            assert(spec_threshold(i) == 82);
            assert(p24(82) == 8541466801005399527679147831234071328955826176) by (nonlinear_arith);
            assert(p24(83) == 11425473754371035063280217037137346730160045921) by (nonlinear_arith);
            assert(191561942608236107294793378393788647952342390272950272 * 8541466801005399527679147831234071328955826176 <= 1897797787524255933919089951121627810790913022996694890147617218756604336362586857695024767047827456);
            assert(191561942608236107294793378393788647952342390272950272 * 11425473754371035063280217037137346730160045921 > 1897797787524255933919089951121627810790913022996694890147617218756604336362586857695024767047827456);
        } else if i == 89 {
            assert(spec_threshold(i) == 77);
            assert(p24(77) == 1887023914800623499934622000276222741687622241) by (nonlinear_arith);
            assert(p24(78) == 2571997040768514410128631917321301874972819456) by (nonlinear_arith);
            assert(766247770432944429179173513575154591809369561091801088 * 1887023914800623499934622000276222741687622241 <= 1897797787524255933919089951121627810790913022996694890147617218756604336362586857695024767047827456);
            assert(766247770432944429179173513575154591809369561091801088 * 2571997040768514410128631917321301874972819456 > 1897797787524255933919089951121627810790913022996694890147617218756604336362586857695024767047827456);
        } else if i == 90 {
            assert(spec_threshold(i) == 73);
            assert(p24(73) == 524503804723748275248688345080154231098133441) by (nonlinear_arith);
            assert(p24(74) == 727044968970026748378706689217733311464472576) by (nonlinear_arith);
            assert(3064991081731777716716694054300618367237478244367204352 * 524503804723748275248688345080154231098133441 <= 1897797787524255933919089951121627810790913022996694890147617218756604336362586857695024767047827456);
            assert(3064991081731777716716694054300618367237478244367204352 * 727044968970026748378706689217733311464472576 > 1897797787524255933919089951121627810790913022996694890147617218756604336362586857695024767047827456);
        } else if i == 91 {
            assert(spec_threshold(i) == 69);
            assert(p24(69) == 135637000670178176410246734932581577148578721) by (nonlinear_arith);
            assert(p24(70) == 191581231380566414401000000000000000000000000) by (nonlinear_arith);
            assert(12259964326927110866866776217202473468949912977468817408 * 135637000670178176410246734932581577148578721 <= 1897797787524255933919089951121627810790913022996694890147617218756604336362586857695024767047827456);
            assert(12259964326927110866866776217202473468949912977468817408 * 191581231380566414401000000000000000000000000 > 1897797787524255933919089951121627810790913022996694890147617218756604336362586857695024767047827456);
        } else if i == 92 {
            assert(spec_threshold(i) == 65);
            assert(p24(65) == 32353447101972729728913030683994293212890625) by (nonlinear_arith);
            assert(p24(66) == 46671789498503428939167356055479642316865536) by (nonlinear_arith);
            assert(49039857307708443467467104868809893875799651909875269632 * 32353447101972729728913030683994293212890625 <= 1897797787524255933919089951121627810790913022996694890147617218756604336362586857695024767047827456);
            assert(49039857307708443467467104868809893875799651909875269632 * 46671789498503428939167356055479642316865536 > 1897797787524255933919089951121627810790913022996694890147617218756604336362586857695024767047827456);
        } else if i == 93 {
            assert(spec_threshold(i) == 61);
            assert(p24(61) == 7045568477354647704120453346932251277539041) by (nonlinear_arith);
            assert(p24(62) == 10408797222153426578715765348940396820955136) by (nonlinear_arith);
            assert(196159429230833773869868419475239575503198607639501078528 * 7045568477354647704120453346932251277539041 <= 1897797787524255933919089951121627810790913022996694890147617218756604336362586857695024767047827456);
            assert(196159429230833773869868419475239575503198607639501078528 * 10408797222153426578715765348940396820955136 > 1897797787524255933919089951121627810790913022996694890147617218756604336362586857695024767047827456);
        } else if i == 94 {
            assert(spec_threshold(i) == 58);
            assert(p24(58) == 2100254120907352485526230505830591911428096) by (nonlinear_arith);
            assert(p24(59) == 3165543453070218706859776348972393302368161) by (nonlinear_arith);
            assert(784637716923335095479473677900958302012794430558004314112 * 2100254120907352485526230505830591911428096 <= 1897797787524255933919089951121627810790913022996694890147617218756604336362586857695024767047827456);
            assert(784637716923335095479473677900958302012794430558004314112 * 3165543453070218706859776348972393302368161 > 1897797787524255933919089951121627810790913022996694890147617218756604336362586857695024767047827456);
        } else if i == 95 {
            assert(spec_threshold(i) == 55);
            assert(p24(55) == 587089817274070447368135511875152587890625) by (nonlinear_arith);
            assert(p24(56) == 904716785818481122446300007835278136836096) by (nonlinear_arith);
            assert(3138550867693340381917894711603833208051177722232017256448 * 587089817274070447368135511875152587890625 <= 1897797787524255933919089951121627810790913022996694890147617218756604336362586857695024767047827456);
            assert(3138550867693340381917894711603833208051177722232017256448 * 904716785818481122446300007835278136836096 > 1897797787524255933919089951121627810790913022996694890147617218756604336362586857695024767047827456);
        } else if i == 96 {
            assert(spec_threshold(i) == 51);
            assert(p24(51) == 95870330898477161150869439346099166191201) by (nonlinear_arith);
            assert(p24(52) == 152784834199652075368661148843397208866816) by (nonlinear_arith);
            assert(12554203470773361527671578846415332832204710888928069025792 * 95870330898477161150869439346099166191201 <= 1897797787524255933919089951121627810790913022996694890147617218756604336362586857695024767047827456);
            assert(12554203470773361527671578846415332832204710888928069025792 * 152784834199652075368661148843397208866816 > 1897797787524255933919089951121627810790913022996694890147617218756604336362586857695024767047827456);
        } else if i == 97 {
            assert(spec_threshold(i) == 49);
            assert(p24(49) == 36703368217294125441230211032033660188801) by (nonlinear_arith);
            assert(p24(50) == 59604644775390625000000000000000000000000) by (nonlinear_arith);
            assert(50216813883093446110686315385661331328818843555712276103168 * 36703368217294125441230211032033660188801 <= 1897797787524255933919089951121627810790913022996694890147617218756604336362586857695024767047827456);
            assert(50216813883093446110686315385661331328818843555712276103168 * 59604644775390625000000000000000000000000 > 1897797787524255933919089951121627810790913022996694890147617218756604336362586857695024767047827456);
        } else if i == 98 {
            assert(spec_threshold(i) == 46);
            assert(p24(46) == 8057270801734336909035597580036898553856) by (nonlinear_arith);
            assert(p24(47) == 13500460747057082764996435506735298654081) by (nonlinear_arith);
            assert(200867255532373784442745261542645325315275374222849104412672 * 8057270801734336909035597580036898553856 <= 1897797787524255933919089951121627810790913022996694890147617218756604336362586857695024767047827456);
            assert(200867255532373784442745261542645325315275374222849104412672 * 13500460747057082764996435506735298654081 > 1897797787524255933919089951121627810790913022996694890147617218756604336362586857695024767047827456);
        } else if i == 99 {
            assert(spec_threshold(i) == 43);
            assert(p24(43) == 1596772093453535767288998989560362112801) by (nonlinear_arith);
            assert(p24(44) == 2772453275529134737960082842514354077696) by (nonlinear_arith);
            assert(803469022129495137770981046170581301261101496891396417650688 * 1596772093453535767288998989560362112801 <= 1897797787524255933919089951121627810790913022996694890147617218756604336362586857695024767047827456);
            assert(803469022129495137770981046170581301261101496891396417650688 * 2772453275529134737960082842514354077696 > 1897797787524255933919089951121627810790913022996694890147617218756604336362586857695024767047827456);
        } else if i == 100 {
            assert(spec_threshold(i) == 41);
            assert(p24(41) == 509111094534718962173411120845918138561) by (nonlinear_arith);
            assert(p24(42) == 907784931546351634835748413459499319296) by (nonlinear_arith);
            assert(3213876088517980551083924184682325205044405987565585670602752 * 509111094534718962173411120845918138561 <= 1897797787524255933919089951121627810790913022996694890147617218756604336362586857695024767047827456);
            assert(3213876088517980551083924184682325205044405987565585670602752 * 907784931546351634835748413459499319296 > 1897797787524255933919089951121627810790913022996694890147617218756604336362586857695024767047827456);
        } else if i == 101 {
            assert(spec_threshold(i) == 38);
            assert(p24(38) == 82187603825523214603738912597460647936) by (nonlinear_arith);
            assert(p24(39) == 153302969978363180764235968430119864641) by (nonlinear_arith);
            assert(12855504354071922204335696738729300820177623950262342682411008 * 82187603825523214603738912597460647936 <= 1897797787524255933919089951121627810790913022996694890147617218756604336362586857695024767047827456);
            assert(12855504354071922204335696738729300820177623950262342682411008 * 153302969978363180764235968430119864641 > 1897797787524255933919089951121627810790913022996694890147617218756604336362586857695024767047827456);
        } else if i == 102 {
            assert(spec_threshold(i) == 36);
            assert(p24(36) == 22452257707354557240087211123792674816) by (nonlinear_arith);
            assert(p24(37) == 43335257111193343900365036083324748961) by (nonlinear_arith);
            assert(51422017416287688817342786954917203280710495801049370729644032 * 22452257707354557240087211123792674816 <= 1897797787524255933919089951121627810790913022996694890147617218756604336362586857695024767047827456);
            assert(51422017416287688817342786954917203280710495801049370729644032 * 43335257111193343900365036083324748961 > 1897797787524255933919089951121627810790913022996694890147617218756604336362586857695024767047827456);
        } else if i == 103 {
            assert(spec_threshold(i) == 34);
            assert(p24(34) == 5695003679558247880375471569828315136) by (nonlinear_arith);
            assert(p24(35) == 11419131242070580387175083160400390625) by (nonlinear_arith);
            assert(205688069665150755269371147819668813122841983204197482918576128 * 5695003679558247880375471569828315136 <= 1897797787524255933919089951121627810790913022996694890147617218756604336362586857695024767047827456);
            assert(205688069665150755269371147819668813122841983204197482918576128 * 11419131242070580387175083160400390625 > 1897797787524255933919089951121627810790913022996694890147617218756604336362586857695024767047827456);
        } else if i == 104 {
            assert(spec_threshold(i) == 32);
            assert(p24(32) == 1329227995784915872903807060280344576) by (nonlinear_arith);
            assert(p24(33) == 2781855434090103443811378243892171521) by (nonlinear_arith);
            assert(822752278660603021077484591278675252491367932816789931674304512 * 1329227995784915872903807060280344576 <= 1897797787524255933919089951121627810790913022996694890147617218756604336362586857695024767047827456);
            assert(822752278660603021077484591278675252491367932816789931674304512 * 2781855434090103443811378243892171521 > 1897797787524255933919089951121627810790913022996694890147617218756604336362586857695024767047827456);
        } else if i == 105 {
            assert(spec_threshold(i) == 30);
            assert(p24(30) == 282429536481000000000000000000000000) by (nonlinear_arith);
            assert(p24(31) == 620412660965527688188300451573157121) by (nonlinear_arith);
            assert(3291009114642412084309938365114701009965471731267159726697218048 * 282429536481000000000000000000000000 <= 1897797787524255933919089951121627810790913022996694890147617218756604336362586857695024767047827456);
            assert(3291009114642412084309938365114701009965471731267159726697218048 * 620412660965527688188300451573157121 > 1897797787524255933919089951121627810790913022996694890147617218756604336362586857695024767047827456);
        } else if i == 106 {
            assert(spec_threshold(i) == 29);
            assert(p24(29) == 125184900814733057351483732809459681) by (nonlinear_arith);
            assert(p24(30) == 282429536481000000000000000000000000) by (nonlinear_arith);
            assert(13164036458569648337239753460458804039861886925068638906788872192 * 125184900814733057351483732809459681 <= 1897797787524255933919089951121627810790913022996694890147617218756604336362586857695024767047827456);
            assert(13164036458569648337239753460458804039861886925068638906788872192 * 282429536481000000000000000000000000 > 1897797787524255933919089951121627810790913022996694890147617218756604336362586857695024767047827456);
        } else if i == 107 {
            assert(spec_threshold(i) == 27);
            assert(p24(27) == 22528399544939174411840147874772641) by (nonlinear_arith);
            assert(p24(28) == 53925322641043729927915335168557056) by (nonlinear_arith);
            assert(52656145834278593348959013841835216159447547700274555627155488768 * 22528399544939174411840147874772641 <= 1897797787524255933919089951121627810790913022996694890147617218756604336362586857695024767047827456);
            assert(52656145834278593348959013841835216159447547700274555627155488768 * 53925322641043729927915335168557056 > 1897797787524255933919089951121627810790913022996694890147617218756604336362586857695024767047827456);
        } else if i == 108 {
            assert(spec_threshold(i) == 25);
            assert(p24(25) == 3552713678800500929355621337890625) by (nonlinear_arith);
            assert(p24(26) == 9106685769537214956799814036094976) by (nonlinear_arith);
            assert(210624583337114373395836055367340864637790190801098222508621955072 * 3552713678800500929355621337890625 <= 1897797787524255933919089951121627810790913022996694890147617218756604336362586857695024767047827456);
            assert(210624583337114373395836055367340864637790190801098222508621955072 * 9106685769537214956799814036094976 > 1897797787524255933919089951121627810790913022996694890147617218756604336362586857695024767047827456);
        } else if i == 109 {
            assert(spec_threshold(i) == 24);
            assert(p24(24) == 1333735776850284124449081472843776) by (nonlinear_arith);
            assert(p24(25) == 3552713678800500929355621337890625) by (nonlinear_arith);
            assert(842498333348457493583344221469363458551160763204392890034487820288 * 1333735776850284124449081472843776 <= 1897797787524255933919089951121627810790913022996694890147617218756604336362586857695024767047827456);
            assert(842498333348457493583344221469363458551160763204392890034487820288 * 3552713678800500929355621337890625 > 1897797787524255933919089951121627810790913022996694890147617218756604336362586857695024767047827456);
        } else if i == 110 {
            assert(spec_threshold(i) == 23);
            assert(p24(23) == 480250763996501976790165756943041) by (nonlinear_arith);
            assert(p24(24) == 1333735776850284124449081472843776) by (nonlinear_arith);
            assert(3369993333393829974333376885877453834204643052817571560137951281152 * 480250763996501976790165756943041 <= 1897797787524255933919089951121627810790913022996694890147617218756604336362586857695024767047827456);
            assert(3369993333393829974333376885877453834204643052817571560137951281152 * 1333735776850284124449081472843776 > 1897797787524255933919089951121627810790913022996694890147617218756604336362586857695024767047827456);
        } else if i == 111 {
            assert(spec_threshold(i) == 21);
            assert(p24(21) == 54108198377272584130510593262881) by (nonlinear_arith);
            assert(p24(22) == 165251092644282265779977014214656) by (nonlinear_arith);
            assert(13479973333575319897333507543509815336818572211270286240551805124608 * 54108198377272584130510593262881 <= 1897797787524255933919089951121627810790913022996694890147617218756604336362586857695024767047827456);
            assert(13479973333575319897333507543509815336818572211270286240551805124608 * 165251092644282265779977014214656 > 1897797787524255933919089951121627810790913022996694890147617218756604336362586857695024767047827456);
        } else if i == 112 {
            assert(spec_threshold(i) == 20);
            assert(p24(20) == 16777216000000000000000000000000) by (nonlinear_arith);
            assert(p24(21) == 54108198377272584130510593262881) by (nonlinear_arith);
            assert(53919893334301279589334030174039261347274288845081144962207220498432 * 16777216000000000000000000000000 <= 1897797787524255933919089951121627810790913022996694890147617218756604336362586857695024767047827456);
            assert(53919893334301279589334030174039261347274288845081144962207220498432 * 54108198377272584130510593262881 > 1897797787524255933919089951121627810790913022996694890147617218756604336362586857695024767047827456);
        } else if i == 113 {
            assert(spec_threshold(i) == 19);
            assert(p24(19) == 4898762930960846817716295277921) by (nonlinear_arith);
            assert(p24(20) == 16777216000000000000000000000000) by (nonlinear_arith);
            assert(215679573337205118357336120696157045389097155380324579848828881993728 * 4898762930960846817716295277921 <= 1897797787524255933919089951121627810790913022996694890147617218756604336362586857695024767047827456);
            assert(215679573337205118357336120696157045389097155380324579848828881993728 * 16777216000000000000000000000000 > 1897797787524255933919089951121627810790913022996694890147617218756604336362586857695024767047827456);
        } else if i == 114 {
            assert(spec_threshold(i) == 18);
            assert(p24(18) == 1338258845052394702439737982976) by (nonlinear_arith);
            assert(p24(19) == 4898762930960846817716295277921) by (nonlinear_arith);
            assert(862718293348820473429344482784628181556388621521298319395315527974912 * 1338258845052394702439737982976 <= 1897797787524255933919089951121627810790913022996694890147617218756604336362586857695024767047827456);
            assert(862718293348820473429344482784628181556388621521298319395315527974912 * 4898762930960846817716295277921 > 1897797787524255933919089951121627810790913022996694890147617218756604336362586857695024767047827456);
        } else if i == 115 {
            assert(spec_threshold(i) == 17);
            assert(p24(17) == 339448671314611904643504117121) by (nonlinear_arith);
            assert(p24(18) == 1338258845052394702439737982976) by (nonlinear_arith);
            assert(3450873173395281893717377931138512726225554486085193277581262111899648 * 339448671314611904643504117121 <= 1897797787524255933919089951121627810790913022996694890147617218756604336362586857695024767047827456);
            assert(3450873173395281893717377931138512726225554486085193277581262111899648 * 1338258845052394702439737982976 > 1897797787524255933919089951121627810790913022996694890147617218756604336362586857695024767047827456);
        } else if i == 116 {
            assert(spec_threshold(i) == 16);
            assert(p24(16) == 79228162514264337593543950336) by (nonlinear_arith);
            assert(p24(17) == 339448671314611904643504117121) by (nonlinear_arith);
            assert(13803492693581127574869511724554050904902217944340773110325048447598592 * 79228162514264337593543950336 <= 1897797787524255933919089951121627810790913022996694890147617218756604336362586857695024767047827456);
            assert(13803492693581127574869511724554050904902217944340773110325048447598592 * 339448671314611904643504117121 > 1897797787524255933919089951121627810790913022996694890147617218756604336362586857695024767047827456);
        } else if i == 117 {
            assert(spec_threshold(i) == 15);
            assert(p24(15) == 16834112196028232574462890625) by (nonlinear_arith);
            assert(p24(16) == 79228162514264337593543950336) by (nonlinear_arith);
            assert(55213970774324510299478046898216203619608871777363092441300193790394368 * 16834112196028232574462890625 <= 1897797787524255933919089951121627810790913022996694890147617218756604336362586857695024767047827456);
            assert(55213970774324510299478046898216203619608871777363092441300193790394368 * 79228162514264337593543950336 > 1897797787524255933919089951121627810790913022996694890147617218756604336362586857695024767047827456);
        } else if i == 118 {
            assert(spec_threshold(i) == 14);
            assert(p24(14) == 3214199700417740936751087616) by (nonlinear_arith);
            assert(p24(15) == 16834112196028232574462890625) by (nonlinear_arith);
            assert(220855883097298041197912187592864814478435487109452369765200775161577472 * 3214199700417740936751087616 <= 1897797787524255933919089951121627810790913022996694890147617218756604336362586857695024767047827456);
            assert(220855883097298041197912187592864814478435487109452369765200775161577472 * 16834112196028232574462890625 > 1897797787524255933919089951121627810790913022996694890147617218756604336362586857695024767047827456);
        } else if i == 119 {
            assert(spec_threshold(i) == 13);
            assert(p24(13) == 542800770374370512771595361) by (nonlinear_arith);
            assert(p24(14) == 3214199700417740936751087616) by (nonlinear_arith);
            assert(883423532389192164791648750371459257913741948437809479060803100646309888 * 542800770374370512771595361 <= 1897797787524255933919089951121627810790913022996694890147617218756604336362586857695024767047827456);
            assert(883423532389192164791648750371459257913741948437809479060803100646309888 * 3214199700417740936751087616 > 1897797787524255933919089951121627810790913022996694890147617218756604336362586857695024767047827456);
        } else if i == 120 {
            assert(spec_threshold(i) == 12);
            assert(p24(12) == 79496847203390844133441536) by (nonlinear_arith);
            assert(p24(13) == 542800770374370512771595361) by (nonlinear_arith);
            assert(3533694129556768659166595001485837031654967793751237916243212402585239552 * 79496847203390844133441536 <= 1897797787524255933919089951121627810790913022996694890147617218756604336362586857695024767047827456);
            assert(3533694129556768659166595001485837031654967793751237916243212402585239552 * 542800770374370512771595361 > 1897797787524255933919089951121627810790913022996694890147617218756604336362586857695024767047827456);
        } else if i == 121 {
            assert(spec_threshold(i) == 12);
            assert(p24(12) == 79496847203390844133441536) by (nonlinear_arith);
            assert(p24(13) == 542800770374370512771595361) by (nonlinear_arith);
            assert(14134776518227074636666380005943348126619871175004951664972849610340958208 * 79496847203390844133441536 <= 1897797787524255933919089951121627810790913022996694890147617218756604336362586857695024767047827456);
            assert(14134776518227074636666380005943348126619871175004951664972849610340958208 * 542800770374370512771595361 > 1897797787524255933919089951121627810790913022996694890147617218756604336362586857695024767047827456);
        } else if i == 122 {
            assert(spec_threshold(i) == 11);
            assert(p24(11) == 9849732675807611094711841) by (nonlinear_arith);
            assert(p24(12) == 79496847203390844133441536) by (nonlinear_arith);
            assert(56539106072908298546665520023773392506479484700019806659891398441363832832 * 9849732675807611094711841 <= 1897797787524255933919089951121627810790913022996694890147617218756604336362586857695024767047827456);
            assert(56539106072908298546665520023773392506479484700019806659891398441363832832 * 79496847203390844133441536 > 1897797787524255933919089951121627810790913022996694890147617218756604336362586857695024767047827456);
        } else if i == 123 {
            assert(spec_threshold(i) == 10);
            assert(p24(10) == 1000000000000000000000000) by (nonlinear_arith);
            assert(p24(11) == 9849732675807611094711841) by (nonlinear_arith);
            assert(226156424291633194186662080095093570025917938800079226639565593765455331328 * 1000000000000000000000000 <= 1897797787524255933919089951121627810790913022996694890147617218756604336362586857695024767047827456);
            assert(226156424291633194186662080095093570025917938800079226639565593765455331328 * 9849732675807611094711841 > 1897797787524255933919089951121627810790913022996694890147617218756604336362586857695024767047827456);
        } else if i == 124 {
            assert(spec_threshold(i) == 10);
            assert(p24(10) == 1000000000000000000000000) by (nonlinear_arith);
            assert(p24(11) == 9849732675807611094711841) by (nonlinear_arith);
            assert(904625697166532776746648320380374280103671755200316906558262375061821325312 * 1000000000000000000000000 <= 1897797787524255933919089951121627810790913022996694890147617218756604336362586857695024767047827456);
            assert(904625697166532776746648320380374280103671755200316906558262375061821325312 * 9849732675807611094711841 > 1897797787524255933919089951121627810790913022996694890147617218756604336362586857695024767047827456);
        } else if i == 125 {
            assert(spec_threshold(i) == 9);
            assert(p24(9) == 79766443076872509863361) by (nonlinear_arith);
            assert(p24(10) == 1000000000000000000000000) by (nonlinear_arith);
            assert(3618502788666131106986593281521497120414687020801267626233049500247285301248 * 79766443076872509863361 <= 1897797787524255933919089951121627810790913022996694890147617218756604336362586857695024767047827456);
            assert(3618502788666131106986593281521497120414687020801267626233049500247285301248 * 1000000000000000000000000 > 1897797787524255933919089951121627810790913022996694890147617218756604336362586857695024767047827456);
        } else if i == 126 {
            assert(spec_threshold(i) == 9);
            assert(p24(9) == 79766443076872509863361) by (nonlinear_arith);
            assert(p24(10) == 1000000000000000000000000) by (nonlinear_arith);
            assert(14474011154664524427946373126085988481658748083205070504932198000989141204992 * 79766443076872509863361 <= 1897797787524255933919089951121627810790913022996694890147617218756604336362586857695024767047827456);
            assert(14474011154664524427946373126085988481658748083205070504932198000989141204992 * 1000000000000000000000000 > 1897797787524255933919089951121627810790913022996694890147617218756604336362586857695024767047827456);
        } else if i == 127 {
            assert(spec_threshold(i) == 8);
            assert(p24(8) == 4722366482869645213696) by (nonlinear_arith);
            assert(p24(9) == 79766443076872509863361) by (nonlinear_arith);
            assert(57896044618658097711785492504343953926634992332820282019728792003956564819968 * 4722366482869645213696 <= 1897797787524255933919089951121627810790913022996694890147617218756604336362586857695024767047827456);
            assert(57896044618658097711785492504343953926634992332820282019728792003956564819968 * 79766443076872509863361 > 1897797787524255933919089951121627810790913022996694890147617218756604336362586857695024767047827456);
        } else if i == 128 {
            assert(spec_threshold(i) == 8);
            assert(p24(8) == 4722366482869645213696) by (nonlinear_arith);
            assert(p24(9) == 79766443076872509863361) by (nonlinear_arith);
            assert(231584178474632390847141970017375815706539969331281128078915168015826259279872 * 4722366482869645213696 <= 1897797787524255933919089951121627810790913022996694890147617218756604336362586857695024767047827456);
            assert(231584178474632390847141970017375815706539969331281128078915168015826259279872 * 79766443076872509863361 > 1897797787524255933919089951121627810790913022996694890147617218756604336362586857695024767047827456);
        } else if i == 129 {
            assert(spec_threshold(i) == 7);
            assert(p24(7) == 191581231380566414401) by (nonlinear_arith);
            assert(p24(8) == 4722366482869645213696) by (nonlinear_arith);
            assert(926336713898529563388567880069503262826159877325124512315660672063305037119488 * 191581231380566414401 <= 1897797787524255933919089951121627810790913022996694890147617218756604336362586857695024767047827456);
            assert(926336713898529563388567880069503262826159877325124512315660672063305037119488 * 4722366482869645213696 > 1897797787524255933919089951121627810790913022996694890147617218756604336362586857695024767047827456);
        } else if i == 130 {
            assert(spec_threshold(i) == 7);
            assert(p24(7) == 191581231380566414401) by (nonlinear_arith);
            assert(p24(8) == 4722366482869645213696) by (nonlinear_arith);
            assert(3705346855594118253554271520278013051304639509300498049262642688253220148477952 * 191581231380566414401 <= 1897797787524255933919089951121627810790913022996694890147617218756604336362586857695024767047827456);
            assert(3705346855594118253554271520278013051304639509300498049262642688253220148477952 * 4722366482869645213696 > 1897797787524255933919089951121627810790913022996694890147617218756604336362586857695024767047827456);
        } else if i == 131 {
            assert(spec_threshold(i) == 6);
            assert(p24(6) == 4738381338321616896) by (nonlinear_arith);
            assert(p24(7) == 191581231380566414401) by (nonlinear_arith);
            assert(14821387422376473014217086081112052205218558037201992197050570753012880593911808 * 4738381338321616896 <= 1897797787524255933919089951121627810790913022996694890147617218756604336362586857695024767047827456);
            assert(14821387422376473014217086081112052205218558037201992197050570753012880593911808 * 191581231380566414401 > 1897797787524255933919089951121627810790913022996694890147617218756604336362586857695024767047827456);
        } else if i == 132 {
            assert(spec_threshold(i) == 6);
            assert(p24(6) == 4738381338321616896) by (nonlinear_arith);
            assert(p24(7) == 191581231380566414401) by (nonlinear_arith);
            assert(59285549689505892056868344324448208820874232148807968788202283012051522375647232 * 4738381338321616896 <= 1897797787524255933919089951121627810790913022996694890147617218756604336362586857695024767047827456);
            assert(59285549689505892056868344324448208820874232148807968788202283012051522375647232 * 191581231380566414401 > 1897797787524255933919089951121627810790913022996694890147617218756604336362586857695024767047827456);
        } else if i == 133 {
            assert(spec_threshold(i) == 6);
            assert(p24(6) == 4738381338321616896) by (nonlinear_arith);
            assert(p24(7) == 191581231380566414401) by (nonlinear_arith);
            assert(237142198758023568227473377297792835283496928595231875152809132048206089502588928 * 4738381338321616896 <= 1897797787524255933919089951121627810790913022996694890147617218756604336362586857695024767047827456);
            assert(237142198758023568227473377297792835283496928595231875152809132048206089502588928 * 191581231380566414401 > 1897797787524255933919089951121627810790913022996694890147617218756604336362586857695024767047827456);
        } else if i == 134 {
            assert(spec_threshold(i) == 5);
            assert(p24(5) == 59604644775390625) by (nonlinear_arith);
            assert(p24(6) == 4738381338321616896) by (nonlinear_arith);
            assert(948568795032094272909893509191171341133987714380927500611236528192824358010355712 * 59604644775390625 <= 1897797787524255933919089951121627810790913022996694890147617218756604336362586857695024767047827456);
            assert(948568795032094272909893509191171341133987714380927500611236528192824358010355712 * 4738381338321616896 > 1897797787524255933919089951121627810790913022996694890147617218756604336362586857695024767047827456);
        } else if i == 135 {
            assert(spec_threshold(i) == 5);
            assert(p24(5) == 59604644775390625) by (nonlinear_arith);
            assert(p24(6) == 4738381338321616896) by (nonlinear_arith);
            assert(3794275180128377091639574036764685364535950857523710002444946112771297432041422848 * 59604644775390625 <= 1897797787524255933919089951121627810790913022996694890147617218756604336362586857695024767047827456);
            assert(3794275180128377091639574036764685364535950857523710002444946112771297432041422848 * 4738381338321616896 > 1897797787524255933919089951121627810790913022996694890147617218756604336362586857695024767047827456);
        } else if i == 136 {
            assert(spec_threshold(i) == 5);
            assert(p24(5) == 59604644775390625) by (nonlinear_arith);
            assert(p24(6) == 4738381338321616896) by (nonlinear_arith);
            assert(15177100720513508366558296147058741458143803430094840009779784451085189728165691392 * 59604644775390625 <= 1897797787524255933919089951121627810790913022996694890147617218756604336362586857695024767047827456);
            assert(15177100720513508366558296147058741458143803430094840009779784451085189728165691392 * 4738381338321616896 > 1897797787524255933919089951121627810790913022996694890147617218756604336362586857695024767047827456);
        } else if i == 137 {
            assert(spec_threshold(i) == 4);
            assert(p24(4) == 281474976710656) by (nonlinear_arith);
            assert(p24(5) == 59604644775390625) by (nonlinear_arith);
            assert(60708402882054033466233184588234965832575213720379360039119137804340758912662765568 * 281474976710656 <= 1897797787524255933919089951121627810790913022996694890147617218756604336362586857695024767047827456);
            assert(60708402882054033466233184588234965832575213720379360039119137804340758912662765568 * 59604644775390625 > 1897797787524255933919089951121627810790913022996694890147617218756604336362586857695024767047827456);
        } else if i == 138 {
            assert(spec_threshold(i) == 4);
            assert(p24(4) == 281474976710656) by (nonlinear_arith);
            assert(p24(5) == 59604644775390625) by (nonlinear_arith);
            assert(242833611528216133864932738352939863330300854881517440156476551217363035650651062272 * 281474976710656 <= 1897797787524255933919089951121627810790913022996694890147617218756604336362586857695024767047827456);
            assert(242833611528216133864932738352939863330300854881517440156476551217363035650651062272 * 59604644775390625 > 1897797787524255933919089951121627810790913022996694890147617218756604336362586857695024767047827456);
        } else if i == 139 {
            assert(spec_threshold(i) == 4);
            assert(p24(4) == 281474976710656) by (nonlinear_arith);
            assert(p24(5) == 59604644775390625) by (nonlinear_arith);
            assert(971334446112864535459730953411759453321203419526069760625906204869452142602604249088 * 281474976710656 <= 1897797787524255933919089951121627810790913022996694890147617218756604336362586857695024767047827456);
            assert(971334446112864535459730953411759453321203419526069760625906204869452142602604249088 * 59604644775390625 > 1897797787524255933919089951121627810790913022996694890147617218756604336362586857695024767047827456);
        } else if i == 140 {
            assert(spec_threshold(i) == 4);
            assert(p24(4) == 281474976710656) by (nonlinear_arith);
            assert(p24(5) == 59604644775390625) by (nonlinear_arith);
            assert(3885337784451458141838923813647037813284813678104279042503624819477808570410416996352 * 281474976710656 <= 1897797787524255933919089951121627810790913022996694890147617218756604336362586857695024767047827456);
            assert(3885337784451458141838923813647037813284813678104279042503624819477808570410416996352 * 59604644775390625 > 1897797787524255933919089951121627810790913022996694890147617218756604336362586857695024767047827456);
        } else if i == 141 {
            assert(spec_threshold(i) == 3);
            assert(p24(3) == 282429536481) by (nonlinear_arith);
            assert(p24(4) == 281474976710656) by (nonlinear_arith);
            assert(15541351137805832567355695254588151253139254712417116170014499277911234281641667985408 * 282429536481 <= 1897797787524255933919089951121627810790913022996694890147617218756604336362586857695024767047827456);
            assert(15541351137805832567355695254588151253139254712417116170014499277911234281641667985408 * 281474976710656 > 1897797787524255933919089951121627810790913022996694890147617218756604336362586857695024767047827456);
        } else if i == 142 {
            assert(spec_threshold(i) == 3);
            assert(p24(3) == 282429536481) by (nonlinear_arith);
            assert(p24(4) == 281474976710656) by (nonlinear_arith);
            assert(62165404551223330269422781018352605012557018849668464680057997111644937126566671941632 * 282429536481 <= 1897797787524255933919089951121627810790913022996694890147617218756604336362586857695024767047827456);
            assert(62165404551223330269422781018352605012557018849668464680057997111644937126566671941632 * 281474976710656 > 1897797787524255933919089951121627810790913022996694890147617218756604336362586857695024767047827456);
        } else if i == 143 {
            assert(spec_threshold(i) == 3);
            assert(p24(3) == 282429536481) by (nonlinear_arith);
            assert(p24(4) == 281474976710656) by (nonlinear_arith);
            assert(248661618204893321077691124073410420050228075398673858720231988446579748506266687766528 * 282429536481 <= 1897797787524255933919089951121627810790913022996694890147617218756604336362586857695024767047827456);
            assert(248661618204893321077691124073410420050228075398673858720231988446579748506266687766528 * 281474976710656 > 1897797787524255933919089951121627810790913022996694890147617218756604336362586857695024767047827456);
        } else if i == 144 {
            assert(spec_threshold(i) == 3);
            assert(p24(3) == 282429536481) by (nonlinear_arith);
            assert(p24(4) == 281474976710656) by (nonlinear_arith);
            assert(994646472819573284310764496293641680200912301594695434880927953786318994025066751066112 * 282429536481 <= 1897797787524255933919089951121627810790913022996694890147617218756604336362586857695024767047827456);
            assert(994646472819573284310764496293641680200912301594695434880927953786318994025066751066112 * 281474976710656 > 1897797787524255933919089951121627810790913022996694890147617218756604336362586857695024767047827456);
        } else if i == 145 {
            assert(spec_threshold(i) == 3);
            assert(p24(3) == 282429536481) by (nonlinear_arith);
            assert(p24(4) == 281474976710656) by (nonlinear_arith);
            assert(3978585891278293137243057985174566720803649206378781739523711815145275976100267004264448 * 282429536481 <= 1897797787524255933919089951121627810790913022996694890147617218756604336362586857695024767047827456);
            assert(3978585891278293137243057985174566720803649206378781739523711815145275976100267004264448 * 281474976710656 > 1897797787524255933919089951121627810790913022996694890147617218756604336362586857695024767047827456);
        } else if i == 146 {
            assert(spec_threshold(i) == 2);
            assert(p24(2) == 16777216) by (nonlinear_arith);
            assert(p24(3) == 282429536481) by (nonlinear_arith);
            assert(15914343565113172548972231940698266883214596825515126958094847260581103904401068017057792 * 16777216 <= 1897797787524255933919089951121627810790913022996694890147617218756604336362586857695024767047827456);
            assert(15914343565113172548972231940698266883214596825515126958094847260581103904401068017057792 * 282429536481 > 1897797787524255933919089951121627810790913022996694890147617218756604336362586857695024767047827456);
        } else if i == 147 {
            assert(spec_threshold(i) == 2);
            assert(p24(2) == 16777216) by (nonlinear_arith);
            assert(p24(3) == 282429536481) by (nonlinear_arith);
            assert(63657374260452690195888927762793067532858387302060507832379389042324415617604272068231168 * 16777216 <= 1897797787524255933919089951121627810790913022996694890147617218756604336362586857695024767047827456);
            assert(63657374260452690195888927762793067532858387302060507832379389042324415617604272068231168 * 282429536481 > 1897797787524255933919089951121627810790913022996694890147617218756604336362586857695024767047827456);
        } else if i == 148 {
            assert(spec_threshold(i) == 2);
            assert(p24(2) == 16777216) by (nonlinear_arith);
            assert(p24(3) == 282429536481) by (nonlinear_arith);
            assert(254629497041810760783555711051172270131433549208242031329517556169297662470417088272924672 * 16777216 <= 1897797787524255933919089951121627810790913022996694890147617218756604336362586857695024767047827456);
            assert(254629497041810760783555711051172270131433549208242031329517556169297662470417088272924672 * 282429536481 > 1897797787524255933919089951121627810790913022996694890147617218756604336362586857695024767047827456);
        } else if i == 149 {
            assert(spec_threshold(i) == 2);
            assert(p24(2) == 16777216) by (nonlinear_arith);
            assert(p24(3) == 282429536481) by (nonlinear_arith);
            assert(1018517988167243043134222844204689080525734196832968125318070224677190649881668353091698688 * 16777216 <= 1897797787524255933919089951121627810790913022996694890147617218756604336362586857695024767047827456);
            assert(1018517988167243043134222844204689080525734196832968125318070224677190649881668353091698688 * 282429536481 > 1897797787524255933919089951121627810790913022996694890147617218756604336362586857695024767047827456);
        } else if i == 150 {
            assert(spec_threshold(i) == 2);
            assert(p24(2) == 16777216) by (nonlinear_arith);
            assert(p24(3) == 282429536481) by (nonlinear_arith);
            assert(4074071952668972172536891376818756322102936787331872501272280898708762599526673412366794752 * 16777216 <= 1897797787524255933919089951121627810790913022996694890147617218756604336362586857695024767047827456);
            assert(4074071952668972172536891376818756322102936787331872501272280898708762599526673412366794752 * 282429536481 > 1897797787524255933919089951121627810790913022996694890147617218756604336362586857695024767047827456);
        } else if i == 151 {
            assert(spec_threshold(i) == 2);
            assert(p24(2) == 16777216) by (nonlinear_arith);
            assert(p24(3) == 282429536481) by (nonlinear_arith);
            assert(16296287810675888690147565507275025288411747149327490005089123594835050398106693649467179008 * 16777216 <= 1897797787524255933919089951121627810790913022996694890147617218756604336362586857695024767047827456);
            assert(16296287810675888690147565507275025288411747149327490005089123594835050398106693649467179008 * 282429536481 > 1897797787524255933919089951121627810790913022996694890147617218756604336362586857695024767047827456);
        } else if i == 152 {
            assert(spec_threshold(i) == 2);
            assert(p24(2) == 16777216) by (nonlinear_arith);
            assert(p24(3) == 282429536481) by (nonlinear_arith);
            assert(65185151242703554760590262029100101153646988597309960020356494379340201592426774597868716032 * 16777216 <= 1897797787524255933919089951121627810790913022996694890147617218756604336362586857695024767047827456);
            assert(65185151242703554760590262029100101153646988597309960020356494379340201592426774597868716032 * 282429536481 > 1897797787524255933919089951121627810790913022996694890147617218756604336362586857695024767047827456);
        } else if i == 153 {
            assert(spec_threshold(i) == 1);
            assert(p24(1) == 1) by (nonlinear_arith);
            assert(p24(2) == 16777216) by (nonlinear_arith);
            assert(260740604970814219042361048116400404614587954389239840081425977517360806369707098391474864128 * 1 <= 1897797787524255933919089951121627810790913022996694890147617218756604336362586857695024767047827456);
            assert(260740604970814219042361048116400404614587954389239840081425977517360806369707098391474864128 * 16777216 > 1897797787524255933919089951121627810790913022996694890147617218756604336362586857695024767047827456);
        } else if i == 154 {
            assert(spec_threshold(i) == 1);
            assert(p24(1) == 1) by (nonlinear_arith);
            assert(p24(2) == 16777216) by (nonlinear_arith);
            assert(1042962419883256876169444192465601618458351817556959360325703910069443225478828393565899456512 * 1 <= 1897797787524255933919089951121627810790913022996694890147617218756604336362586857695024767047827456);
            assert(1042962419883256876169444192465601618458351817556959360325703910069443225478828393565899456512 * 16777216 > 1897797787524255933919089951121627810790913022996694890147617218756604336362586857695024767047827456);
        } else if i == 155 {
            assert(spec_threshold(i) == 1);
            assert(p24(1) == 1) by (nonlinear_arith);
            assert(p24(2) == 16777216) by (nonlinear_arith);
            assert(4171849679533027504677776769862406473833407270227837441302815640277772901915313574263597826048 * 1 <= 1897797787524255933919089951121627810790913022996694890147617218756604336362586857695024767047827456);
            assert(4171849679533027504677776769862406473833407270227837441302815640277772901915313574263597826048 * 16777216 > 1897797787524255933919089951121627810790913022996694890147617218756604336362586857695024767047827456);
        } else if i == 156 {
            assert(spec_threshold(i) == 1);
            assert(p24(1) == 1) by (nonlinear_arith);
            assert(p24(2) == 16777216) by (nonlinear_arith);
            assert(16687398718132110018711107079449625895333629080911349765211262561111091607661254297054391304192 * 1 <= 1897797787524255933919089951121627810790913022996694890147617218756604336362586857695024767047827456);
            assert(16687398718132110018711107079449625895333629080911349765211262561111091607661254297054391304192 * 16777216 > 1897797787524255933919089951121627810790913022996694890147617218756604336362586857695024767047827456);
        } else if i == 157 {
            assert(spec_threshold(i) == 1);
            assert(p24(1) == 1) by (nonlinear_arith);
            assert(p24(2) == 16777216) by (nonlinear_arith);
            assert(66749594872528440074844428317798503581334516323645399060845050244444366430645017188217565216768 * 1 <= 1897797787524255933919089951121627810790913022996694890147617218756604336362586857695024767047827456);
            assert(66749594872528440074844428317798503581334516323645399060845050244444366430645017188217565216768 * 16777216 > 1897797787524255933919089951121627810790913022996694890147617218756604336362586857695024767047827456);
        } else if i == 158 {
            assert(spec_threshold(i) == 1);
            assert(p24(1) == 1) by (nonlinear_arith);
            assert(p24(2) == 16777216) by (nonlinear_arith);
            assert(266998379490113760299377713271194014325338065294581596243380200977777465722580068752870260867072 * 1 <= 1897797787524255933919089951121627810790913022996694890147617218756604336362586857695024767047827456);
            assert(266998379490113760299377713271194014325338065294581596243380200977777465722580068752870260867072 * 16777216 > 1897797787524255933919089951121627810790913022996694890147617218756604336362586857695024767047827456);
        } else if i == 159 {
            assert(spec_threshold(i) == 1);
            assert(p24(1) == 1) by (nonlinear_arith);
            assert(p24(2) == 16777216) by (nonlinear_arith);
            assert(1067993517960455041197510853084776057301352261178326384973520803911109862890320275011481043468288 * 1 <= 1897797787524255933919089951121627810790913022996694890147617218756604336362586857695024767047827456);
            assert(1067993517960455041197510853084776057301352261178326384973520803911109862890320275011481043468288 * 16777216 > 1897797787524255933919089951121627810790913022996694890147617218756604336362586857695024767047827456);
        } else if i == 160 {
            assert(spec_threshold(i) == 1);
            assert(p24(1) == 1) by (nonlinear_arith);
            assert(p24(2) == 16777216) by (nonlinear_arith);
            assert(4271974071841820164790043412339104229205409044713305539894083215644439451561281100045924173873152 * 1 <= 1897797787524255933919089951121627810790913022996694890147617218756604336362586857695024767047827456);
            assert(4271974071841820164790043412339104229205409044713305539894083215644439451561281100045924173873152 * 16777216 > 1897797787524255933919089951121627810790913022996694890147617218756604336362586857695024767047827456);
        } else if i == 161 {
            assert(spec_threshold(i) == 1);
            assert(p24(1) == 1) by (nonlinear_arith);
            assert(p24(2) == 16777216) by (nonlinear_arith);
            assert(17087896287367280659160173649356416916821636178853222159576332862577757806245124400183696695492608 * 1 <= 1897797787524255933919089951121627810790913022996694890147617218756604336362586857695024767047827456);
            assert(17087896287367280659160173649356416916821636178853222159576332862577757806245124400183696695492608 * 16777216 > 1897797787524255933919089951121627810790913022996694890147617218756604336362586857695024767047827456);
        } else if i == 162 {
            assert(spec_threshold(i) == 1);
            assert(p24(1) == 1) by (nonlinear_arith);
            assert(p24(2) == 16777216) by (nonlinear_arith);
            assert(68351585149469122636640694597425667667286544715412888638305331450311031224980497600734786781970432 * 1 <= 1897797787524255933919089951121627810790913022996694890147617218756604336362586857695024767047827456);
            assert(68351585149469122636640694597425667667286544715412888638305331450311031224980497600734786781970432 * 16777216 > 1897797787524255933919089951121627810790913022996694890147617218756604336362586857695024767047827456);
        } else if i == 163 {
            assert(spec_threshold(i) == 1);
            assert(p24(1) == 1) by (nonlinear_arith);
            assert(p24(2) == 16777216) by (nonlinear_arith);
            assert(273406340597876490546562778389702670669146178861651554553221325801244124899921990402939147127881728 * 1 <= 1897797787524255933919089951121627810790913022996694890147617218756604336362586857695024767047827456);
            assert(273406340597876490546562778389702670669146178861651554553221325801244124899921990402939147127881728 * 16777216 > 1897797787524255933919089951121627810790913022996694890147617218756604336362586857695024767047827456);
        } else if i == 164 {
            assert(spec_threshold(i) == 1);
            assert(p24(1) == 1) by (nonlinear_arith);
            assert(p24(2) == 16777216) by (nonlinear_arith);
            assert(1093625362391505962186251113558810682676584715446606218212885303204976499599687961611756588511526912 * 1 <= 1897797787524255933919089951121627810790913022996694890147617218756604336362586857695024767047827456);
            assert(1093625362391505962186251113558810682676584715446606218212885303204976499599687961611756588511526912 * 16777216 > 1897797787524255933919089951121627810790913022996694890147617218756604336362586857695024767047827456);
        }
    }
}

/// A larger power stays larger.
proof fn lemma_p24_mono(q: int, p: int)
    requires
        0 <= q <= p,
    ensures
        p24(q) <= p24(p),
{
    assert(q * q <= p * p) by (nonlinear_arith) requires 0 <= q <= p;
    let (q2, p2) = (q * q, p * p);
    assert(q2 * q2 <= p2 * p2) by (nonlinear_arith) requires 0 <= q2 <= p2;
    let (q4, p4) = (q2 * q2, p2 * p2);
    assert(q4 * q4 <= p4 * p4) by (nonlinear_arith) requires 0 <= q4 <= p4;
    let (q8, p8) = (q4 * q4, p4 * p4);
    assert(q8 * q8 <= p8 * p8) by (nonlinear_arith) requires 0 <= q8 <= p8;
    let (q16, p16) = (q8 * q8, p8 * p8);
    assert(q16 * q8 <= p16 * p8) by (nonlinear_arith) requires 0 <= q16 <= p16, 0 <= q8 <= p8;
}

proof fn lemma_scale_pos(n: nat)
    ensures
        scale(n) > 0,
    decreases n,
{
    if n > 1 {
        lemma_scale_pos((n - 1) as nat);
    }
}

/// A shorter period reaches every note a longer one reaches.
proof fn lemma_reached_mono(q: nat, p: nat, n: nat)
    requires
        q <= p,
        note_reached(p, n),
    ensures
        note_reached(q, n),
{
    lemma_p24_mono(q as int, p as int);
    lemma_scale_pos(n);
    let s = scale(n);
    assert(s * p24(q as int) <= s * p24(p as int)) by (nonlinear_arith)
        requires s > 0, p24(q as int) <= p24(p as int);
}

/// Counting reached notes from `n` when they run up to, not including, `m`.
proof fn lemma_notes_from(p: nat, n: nat, m: nat)
    requires
        1 <= n <= m,
        m <= 256,
        forall|k: nat| n <= k < m ==> note_reached(p, k),
        m < 256 ==> !note_reached(p, m),
    ensures
        notes_from(p, n) == m - n,
    decreases m - n,
{
    if n < m {
        lemma_notes_from(p, n + 1, m);
    }
}

/// The nearest note to `period`; 0 for period 0. No period reaches past
/// note 165, and a 12-bit period is at least note 12 (C-1).
pub fn period_to_note(period: u16) -> (r: u8)
    ensures
        r == spec_period_note(period as nat),
        r <= 165,
        1 <= period <= 0xfff ==> r >= 12,
{
    if period == 0 {
        return 0;
    }
    proof { lemma_thresholds(); }
    let mut i: usize = 0;
    while i < 165 && period <= threshold(i)
        invariant
            i <= 165,
            period >= 1,
            forall|k: nat| 1 <= k <= i ==> note_reached(period as nat, k),
            forall|i: int| 0 <= i < 165 ==> note_reached(#[trigger] spec_threshold(i) as nat, (i + 1) as nat)
                && !note_reached((spec_threshold(i) + 1) as nat, (i + 1) as nat),
        decreases 165 - i,
    {
        proof {
            lemma_reached_mono(period as nat, spec_threshold(i as int) as nat, (i + 1) as nat);
        }
        i = i + 1;
    }
    assert(1 <= period <= 0xfff ==> i >= 12);
    proof {
        if i < 165 {
            lemma_reached_mono_neg(period as nat, (spec_threshold(i as int) + 1) as nat, (i + 1) as nat);
        } else {
            lemma_reached_mono_neg(period as nat, 1, 166);
        }
        lemma_notes_from(period as nat, 1, (i + 1) as nat);
    }
    i as u8
}

/// A longer period is never a higher note: for periods `1 <= p1 <= p2`,
/// the note of `p1` is at least that of `p2`; period 0 is note 0.
pub proof fn lemma_period_note_monotonic(p1: nat, p2: nat)
    requires
        1 <= p1 <= p2,
    ensures
        spec_period_note(p1) >= spec_period_note(p2),
        spec_period_note(0) == 0,
{
    lemma_notes_from_mono(p1, p2, 1);
}

/// From any note on, a shorter period reaches at least as many notes in
/// a row as a longer one.
proof fn lemma_notes_from_mono(p1: nat, p2: nat, n: nat)
    requires
        p1 <= p2,
    ensures
        notes_from(p1, n) >= notes_from(p2, n),
    decreases 256 - n,
{
    if n < 256 && n != 0 && note_reached(p2, n) {
        lemma_reached_mono(p1, p2, n);
        lemma_notes_from_mono(p1, p2, n + 1);
    }
}

/// A period at least as long as one that misses a note misses it too.
proof fn lemma_reached_mono_neg(p: nat, q: nat, n: nat)
    requires
        q <= p,
        !note_reached(q, n),
    ensures
        !note_reached(p, n),
{
    if note_reached(p, n) {
        lemma_reached_mono(q, p, n);
    }
}

} // verus!
