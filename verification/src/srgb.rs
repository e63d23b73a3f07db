//! The sRGB transfer function in fixed point.
//!
//! An 8-bit channel `v` stands for the share `c = v / 255` of full
//! intensity. The light that it gives off is not proportional to `c`: it is
//! `c / 12.92` where `c <= 0.04045`, and `((c + 0.055) / 1.055)^2.4` above.
//! This module holds that value for each of the 256 channels, in units of
//! [`LINEAR_ONE`] and rounded down, and proves each entry against the
//! formula.

use vstd::prelude::*;

verus! {

/// Full intensity, in the units of [`LINEAR`].
pub const LINEAR_ONE: u32 = 1_000_000_000;

/// The linear-light value of each 8-bit channel, in units of
/// [`LINEAR_ONE`], rounded down.
pub const LINEAR: [u32; 256] = [
    0, 303526, 607053, 910580, 1214107, 1517634, 1821161, 2124688,
    2428215, 2731742, 3035269, 3346535, 3676507, 4024717, 4391442, 4776953,
    5181516, 5605391, 6048833, 6512090, 6995410, 7499032, 8023192, 8568125,
    9134058, 9721217, 10329823, 10960094, 11612245, 12286488, 12983032, 13702083,
    14443843, 15208514, 15996293, 16807375, 17641954, 18500220, 19382360, 20288563,
    21219010, 22173884, 23153366, 24157632, 25186859, 26241221, 27320891, 28426039,
    29556834, 30713443, 31896033, 33104766, 34339806, 35601314, 36889450, 38204371,
    39546235, 40915196, 42311410, 43735029, 45186204, 46665086, 48171824, 49706565,
    51269458, 52860647, 54480276, 56128490, 57805430, 59511238, 61246054, 63010017,
    64803266, 66625938, 68478169, 70360095, 72271850, 74213568, 76185381, 78187421,
    80219820, 82282707, 84376211, 86500462, 88655586, 90841711, 93058962, 95307466,
    97587347, 99898728, 102241733, 104616484, 107023102, 109461710, 111932427, 114435373,
    116970667, 119538427, 122138772, 124771817, 127437680, 130136476, 132868321, 135633329,
    138431615, 141263291, 144128470, 147027266, 149959789, 152926151, 155926463, 158960835,
    162029375, 165132194, 168269400, 171441100, 174647403, 177888415, 181164244, 184474994,
    187820772, 191201682, 194617830, 198069319, 201556253, 205078736, 208636870, 212230757,
    215860500, 219526199, 223227957, 226965873, 230740048, 234550582, 238397573, 242281122,
    246201326, 250158284, 254152094, 258182852, 262250657, 266355604, 270497791, 274677312,
    278894263, 283148740, 287440837, 291770649, 296138270, 300543794, 304987314, 309468922,
    313988713, 318546778, 323143209, 327778098, 332451536, 337163615, 341914424, 346704056,
    351532599, 356400144, 361306779, 366252595, 371237680, 376262122, 381326011, 386429433,
    391572477, 396755230, 401977779, 407240211, 412542613, 417885070, 423267669, 428690496,
    434153636, 439657173, 445201194, 450785782, 456411023, 462076999, 467783796, 473531496,
    479320183, 485149940, 491020849, 496932995, 502886458, 508881320, 514917665, 520995573,
    527115125, 533276404, 539479489, 545724461, 552011401, 558340389, 564711505, 571124829,
    577580440, 584078417, 590618840, 597201788, 603827338, 610495570, 617206562, 623960391,
    630757136, 637596873, 644479681, 651405637, 658374817, 665387298, 672443156, 679542469,
    686685312, 693871761, 701101891, 708375779, 715693500, 723055128, 730460740, 737910408,
    745404209, 752942216, 760524504, 768151147, 775822218, 783537791, 791297940, 799102738,
    806952257, 814846572, 822785754, 830769876, 838799011, 846873231, 854992608, 863157213,
    871367119, 879622396, 887923117, 896269353, 904661174, 913098651, 921581856, 930110858,
    938685728, 947306536, 955973353, 964686247, 973445290, 982250550, 991102097, 1000000000,
];

/// `x` to the fifth power.
pub open spec fn fifth(x: int) -> int {
    x * x * x * x * x
}

/// `x` to the twelfth power.
pub open spec fn twelfth(x: int) -> int {
    let cube = x * x * x;
    cube * cube * cube * cube
}

/// Whether the fraction `n / d` is greater than the exact linear-light
/// value of the channel `v`, for a denominator above nothing and a
/// numerator not below it.
///
/// On the straight part of the curve the exact value is
/// `v / (255 * 12.92)`, that is `10 * v / 32946`. Above it the exact value
/// is `q^(12/5)` with
/// `q = (v / 255 + 0.055) / 1.055 = (1000 * v + 14025) / 269025`, and a
/// fraction is greater than that just when its fifth power is greater than
/// the twelfth power of `q`.
pub open spec fn exceeds_linear(v: int, n: int, d: int) -> bool
    recommends
        n >= 0,
        d > 0,
{
    if 100_000 * v <= 4045 * 255 {
        n * 32946 > d * 10 * v
    } else {
        fifth(n) * twelfth(269025) > fifth(d) * twelfth(1000 * v + 14025)
    }
}

/// Whether `t` is the exact linear-light value of the channel `v` in units
/// of [`LINEAR_ONE`], rounded down: `t` units do not exceed the exact
/// value, and one unit more does.
pub open spec fn is_linear_floor(v: int, t: int) -> bool {
    !exceeds_linear(v, t, LINEAR_ONE as int) && exceeds_linear(v, t + 1, LINEAR_ONE as int)
}

/// The entries 0 to 15 of [`LINEAR`] are what the formula gives.
proof fn lemma_linear_floor_from_0(v: int)
    requires
        0 <= v < 16,
    ensures
        is_linear_floor(v, LINEAR[v] as int),
{
    assert({
        &&& is_linear_floor(0, 0)
        &&& is_linear_floor(1, 303526)
        &&& is_linear_floor(2, 607053)
        &&& is_linear_floor(3, 910580)
        &&& is_linear_floor(4, 1214107)
        &&& is_linear_floor(5, 1517634)
        &&& is_linear_floor(6, 1821161)
        &&& is_linear_floor(7, 2124688)
        &&& is_linear_floor(8, 2428215)
        &&& is_linear_floor(9, 2731742)
        &&& is_linear_floor(10, 3035269)
        &&& is_linear_floor(11, 3346535)
        &&& is_linear_floor(12, 3676507)
        &&& is_linear_floor(13, 4024717)
        &&& is_linear_floor(14, 4391442)
        &&& is_linear_floor(15, 4776953)
    }) by (nonlinear_arith);
}

/// The entries 16 to 31 of [`LINEAR`] are what the formula gives.
proof fn lemma_linear_floor_from_16(v: int)
    requires
        16 <= v < 32,
    ensures
        is_linear_floor(v, LINEAR[v] as int),
{
    assert({
        &&& is_linear_floor(16, 5181516)
        &&& is_linear_floor(17, 5605391)
        &&& is_linear_floor(18, 6048833)
        &&& is_linear_floor(19, 6512090)
        &&& is_linear_floor(20, 6995410)
        &&& is_linear_floor(21, 7499032)
        &&& is_linear_floor(22, 8023192)
        &&& is_linear_floor(23, 8568125)
        &&& is_linear_floor(24, 9134058)
        &&& is_linear_floor(25, 9721217)
        &&& is_linear_floor(26, 10329823)
        &&& is_linear_floor(27, 10960094)
        &&& is_linear_floor(28, 11612245)
        &&& is_linear_floor(29, 12286488)
        &&& is_linear_floor(30, 12983032)
        &&& is_linear_floor(31, 13702083)
    }) by (nonlinear_arith);
}

/// The entries 32 to 47 of [`LINEAR`] are what the formula gives.
proof fn lemma_linear_floor_from_32(v: int)
    requires
        32 <= v < 48,
    ensures
        is_linear_floor(v, LINEAR[v] as int),
{
    assert({
        &&& is_linear_floor(32, 14443843)
        &&& is_linear_floor(33, 15208514)
        &&& is_linear_floor(34, 15996293)
        &&& is_linear_floor(35, 16807375)
        &&& is_linear_floor(36, 17641954)
        &&& is_linear_floor(37, 18500220)
        &&& is_linear_floor(38, 19382360)
        &&& is_linear_floor(39, 20288563)
        &&& is_linear_floor(40, 21219010)
        &&& is_linear_floor(41, 22173884)
        &&& is_linear_floor(42, 23153366)
        &&& is_linear_floor(43, 24157632)
        &&& is_linear_floor(44, 25186859)
        &&& is_linear_floor(45, 26241221)
        &&& is_linear_floor(46, 27320891)
        &&& is_linear_floor(47, 28426039)
    }) by (nonlinear_arith);
}

/// The entries 48 to 63 of [`LINEAR`] are what the formula gives.
proof fn lemma_linear_floor_from_48(v: int)
    requires
        48 <= v < 64,
    ensures
        is_linear_floor(v, LINEAR[v] as int),
{
    assert({
        &&& is_linear_floor(48, 29556834)
        &&& is_linear_floor(49, 30713443)
        &&& is_linear_floor(50, 31896033)
        &&& is_linear_floor(51, 33104766)
        &&& is_linear_floor(52, 34339806)
        &&& is_linear_floor(53, 35601314)
        &&& is_linear_floor(54, 36889450)
        &&& is_linear_floor(55, 38204371)
        &&& is_linear_floor(56, 39546235)
        &&& is_linear_floor(57, 40915196)
        &&& is_linear_floor(58, 42311410)
        &&& is_linear_floor(59, 43735029)
        &&& is_linear_floor(60, 45186204)
        &&& is_linear_floor(61, 46665086)
        &&& is_linear_floor(62, 48171824)
        &&& is_linear_floor(63, 49706565)
    }) by (nonlinear_arith);
}

/// The entries 64 to 79 of [`LINEAR`] are what the formula gives.
proof fn lemma_linear_floor_from_64(v: int)
    requires
        64 <= v < 80,
    ensures
        is_linear_floor(v, LINEAR[v] as int),
{
    assert({
        &&& is_linear_floor(64, 51269458)
        &&& is_linear_floor(65, 52860647)
        &&& is_linear_floor(66, 54480276)
        &&& is_linear_floor(67, 56128490)
        &&& is_linear_floor(68, 57805430)
        &&& is_linear_floor(69, 59511238)
        &&& is_linear_floor(70, 61246054)
        &&& is_linear_floor(71, 63010017)
        &&& is_linear_floor(72, 64803266)
        &&& is_linear_floor(73, 66625938)
        &&& is_linear_floor(74, 68478169)
        &&& is_linear_floor(75, 70360095)
        &&& is_linear_floor(76, 72271850)
        &&& is_linear_floor(77, 74213568)
        &&& is_linear_floor(78, 76185381)
        &&& is_linear_floor(79, 78187421)
    }) by (nonlinear_arith);
}

/// The entries 80 to 95 of [`LINEAR`] are what the formula gives.
proof fn lemma_linear_floor_from_80(v: int)
    requires
        80 <= v < 96,
    ensures
        is_linear_floor(v, LINEAR[v] as int),
{
    assert({
        &&& is_linear_floor(80, 80219820)
        &&& is_linear_floor(81, 82282707)
        &&& is_linear_floor(82, 84376211)
        &&& is_linear_floor(83, 86500462)
        &&& is_linear_floor(84, 88655586)
        &&& is_linear_floor(85, 90841711)
        &&& is_linear_floor(86, 93058962)
        &&& is_linear_floor(87, 95307466)
        &&& is_linear_floor(88, 97587347)
        &&& is_linear_floor(89, 99898728)
        &&& is_linear_floor(90, 102241733)
        &&& is_linear_floor(91, 104616484)
        &&& is_linear_floor(92, 107023102)
        &&& is_linear_floor(93, 109461710)
        &&& is_linear_floor(94, 111932427)
        &&& is_linear_floor(95, 114435373)
    }) by (nonlinear_arith);
}

/// The entries 96 to 111 of [`LINEAR`] are what the formula gives.
proof fn lemma_linear_floor_from_96(v: int)
    requires
        96 <= v < 112,
    ensures
        is_linear_floor(v, LINEAR[v] as int),
{
    assert({
        &&& is_linear_floor(96, 116970667)
        &&& is_linear_floor(97, 119538427)
        &&& is_linear_floor(98, 122138772)
        &&& is_linear_floor(99, 124771817)
        &&& is_linear_floor(100, 127437680)
        &&& is_linear_floor(101, 130136476)
        &&& is_linear_floor(102, 132868321)
        &&& is_linear_floor(103, 135633329)
        &&& is_linear_floor(104, 138431615)
        &&& is_linear_floor(105, 141263291)
        &&& is_linear_floor(106, 144128470)
        &&& is_linear_floor(107, 147027266)
        &&& is_linear_floor(108, 149959789)
        &&& is_linear_floor(109, 152926151)
        &&& is_linear_floor(110, 155926463)
        &&& is_linear_floor(111, 158960835)
    }) by (nonlinear_arith);
}

/// The entries 112 to 127 of [`LINEAR`] are what the formula gives.
proof fn lemma_linear_floor_from_112(v: int)
    requires
        112 <= v < 128,
    ensures
        is_linear_floor(v, LINEAR[v] as int),
{
    assert({
        &&& is_linear_floor(112, 162029375)
        &&& is_linear_floor(113, 165132194)
        &&& is_linear_floor(114, 168269400)
        &&& is_linear_floor(115, 171441100)
        &&& is_linear_floor(116, 174647403)
        &&& is_linear_floor(117, 177888415)
        &&& is_linear_floor(118, 181164244)
        &&& is_linear_floor(119, 184474994)
        &&& is_linear_floor(120, 187820772)
        &&& is_linear_floor(121, 191201682)
        &&& is_linear_floor(122, 194617830)
        &&& is_linear_floor(123, 198069319)
        &&& is_linear_floor(124, 201556253)
        &&& is_linear_floor(125, 205078736)
        &&& is_linear_floor(126, 208636870)
        &&& is_linear_floor(127, 212230757)
    }) by (nonlinear_arith);
}

/// The entries 128 to 143 of [`LINEAR`] are what the formula gives.
proof fn lemma_linear_floor_from_128(v: int)
    requires
        128 <= v < 144,
    ensures
        is_linear_floor(v, LINEAR[v] as int),
{
    assert({
        &&& is_linear_floor(128, 215860500)
        &&& is_linear_floor(129, 219526199)
        &&& is_linear_floor(130, 223227957)
        &&& is_linear_floor(131, 226965873)
        &&& is_linear_floor(132, 230740048)
        &&& is_linear_floor(133, 234550582)
        &&& is_linear_floor(134, 238397573)
        &&& is_linear_floor(135, 242281122)
        &&& is_linear_floor(136, 246201326)
        &&& is_linear_floor(137, 250158284)
        &&& is_linear_floor(138, 254152094)
        &&& is_linear_floor(139, 258182852)
        &&& is_linear_floor(140, 262250657)
        &&& is_linear_floor(141, 266355604)
        &&& is_linear_floor(142, 270497791)
        &&& is_linear_floor(143, 274677312)
    }) by (nonlinear_arith);
}

/// The entries 144 to 159 of [`LINEAR`] are what the formula gives.
proof fn lemma_linear_floor_from_144(v: int)
    requires
        144 <= v < 160,
    ensures
        is_linear_floor(v, LINEAR[v] as int),
{
    assert({
        &&& is_linear_floor(144, 278894263)
        &&& is_linear_floor(145, 283148740)
        &&& is_linear_floor(146, 287440837)
        &&& is_linear_floor(147, 291770649)
        &&& is_linear_floor(148, 296138270)
        &&& is_linear_floor(149, 300543794)
        &&& is_linear_floor(150, 304987314)
        &&& is_linear_floor(151, 309468922)
        &&& is_linear_floor(152, 313988713)
        &&& is_linear_floor(153, 318546778)
        &&& is_linear_floor(154, 323143209)
        &&& is_linear_floor(155, 327778098)
        &&& is_linear_floor(156, 332451536)
        &&& is_linear_floor(157, 337163615)
        &&& is_linear_floor(158, 341914424)
        &&& is_linear_floor(159, 346704056)
    }) by (nonlinear_arith);
}

/// The entries 160 to 175 of [`LINEAR`] are what the formula gives.
proof fn lemma_linear_floor_from_160(v: int)
    requires
        160 <= v < 176,
    ensures
        is_linear_floor(v, LINEAR[v] as int),
{
    assert({
        &&& is_linear_floor(160, 351532599)
        &&& is_linear_floor(161, 356400144)
        &&& is_linear_floor(162, 361306779)
        &&& is_linear_floor(163, 366252595)
        &&& is_linear_floor(164, 371237680)
        &&& is_linear_floor(165, 376262122)
        &&& is_linear_floor(166, 381326011)
        &&& is_linear_floor(167, 386429433)
        &&& is_linear_floor(168, 391572477)
        &&& is_linear_floor(169, 396755230)
        &&& is_linear_floor(170, 401977779)
        &&& is_linear_floor(171, 407240211)
        &&& is_linear_floor(172, 412542613)
        &&& is_linear_floor(173, 417885070)
        &&& is_linear_floor(174, 423267669)
        &&& is_linear_floor(175, 428690496)
    }) by (nonlinear_arith);
}

/// The entries 176 to 191 of [`LINEAR`] are what the formula gives.
proof fn lemma_linear_floor_from_176(v: int)
    requires
        176 <= v < 192,
    ensures
        is_linear_floor(v, LINEAR[v] as int),
{
    assert({
        &&& is_linear_floor(176, 434153636)
        &&& is_linear_floor(177, 439657173)
        &&& is_linear_floor(178, 445201194)
        &&& is_linear_floor(179, 450785782)
        &&& is_linear_floor(180, 456411023)
        &&& is_linear_floor(181, 462076999)
        &&& is_linear_floor(182, 467783796)
        &&& is_linear_floor(183, 473531496)
        &&& is_linear_floor(184, 479320183)
        &&& is_linear_floor(185, 485149940)
        &&& is_linear_floor(186, 491020849)
        &&& is_linear_floor(187, 496932995)
        &&& is_linear_floor(188, 502886458)
        &&& is_linear_floor(189, 508881320)
        &&& is_linear_floor(190, 514917665)
        &&& is_linear_floor(191, 520995573)
    }) by (nonlinear_arith);
}

/// The entries 192 to 207 of [`LINEAR`] are what the formula gives.
proof fn lemma_linear_floor_from_192(v: int)
    requires
        192 <= v < 208,
    ensures
        is_linear_floor(v, LINEAR[v] as int),
{
    assert({
        &&& is_linear_floor(192, 527115125)
        &&& is_linear_floor(193, 533276404)
        &&& is_linear_floor(194, 539479489)
        &&& is_linear_floor(195, 545724461)
        &&& is_linear_floor(196, 552011401)
        &&& is_linear_floor(197, 558340389)
        &&& is_linear_floor(198, 564711505)
        &&& is_linear_floor(199, 571124829)
        &&& is_linear_floor(200, 577580440)
        &&& is_linear_floor(201, 584078417)
        &&& is_linear_floor(202, 590618840)
        &&& is_linear_floor(203, 597201788)
        &&& is_linear_floor(204, 603827338)
        &&& is_linear_floor(205, 610495570)
        &&& is_linear_floor(206, 617206562)
        &&& is_linear_floor(207, 623960391)
    }) by (nonlinear_arith);
}

/// The entries 208 to 223 of [`LINEAR`] are what the formula gives.
proof fn lemma_linear_floor_from_208(v: int)
    requires
        208 <= v < 224,
    ensures
        is_linear_floor(v, LINEAR[v] as int),
{
    assert({
        &&& is_linear_floor(208, 630757136)
        &&& is_linear_floor(209, 637596873)
        &&& is_linear_floor(210, 644479681)
        &&& is_linear_floor(211, 651405637)
        &&& is_linear_floor(212, 658374817)
        &&& is_linear_floor(213, 665387298)
        &&& is_linear_floor(214, 672443156)
        &&& is_linear_floor(215, 679542469)
        &&& is_linear_floor(216, 686685312)
        &&& is_linear_floor(217, 693871761)
        &&& is_linear_floor(218, 701101891)
        &&& is_linear_floor(219, 708375779)
        &&& is_linear_floor(220, 715693500)
        &&& is_linear_floor(221, 723055128)
        &&& is_linear_floor(222, 730460740)
        &&& is_linear_floor(223, 737910408)
    }) by (nonlinear_arith);
}

/// The entries 224 to 239 of [`LINEAR`] are what the formula gives.
proof fn lemma_linear_floor_from_224(v: int)
    requires
        224 <= v < 240,
    ensures
        is_linear_floor(v, LINEAR[v] as int),
{
    assert({
        &&& is_linear_floor(224, 745404209)
        &&& is_linear_floor(225, 752942216)
        &&& is_linear_floor(226, 760524504)
        &&& is_linear_floor(227, 768151147)
        &&& is_linear_floor(228, 775822218)
        &&& is_linear_floor(229, 783537791)
        &&& is_linear_floor(230, 791297940)
        &&& is_linear_floor(231, 799102738)
        &&& is_linear_floor(232, 806952257)
        &&& is_linear_floor(233, 814846572)
        &&& is_linear_floor(234, 822785754)
        &&& is_linear_floor(235, 830769876)
        &&& is_linear_floor(236, 838799011)
        &&& is_linear_floor(237, 846873231)
        &&& is_linear_floor(238, 854992608)
        &&& is_linear_floor(239, 863157213)
    }) by (nonlinear_arith);
}

/// The entries 240 to 255 of [`LINEAR`] are what the formula gives.
proof fn lemma_linear_floor_from_240(v: int)
    requires
        240 <= v < 256,
    ensures
        is_linear_floor(v, LINEAR[v] as int),
{
    assert({
        &&& is_linear_floor(240, 871367119)
        &&& is_linear_floor(241, 879622396)
        &&& is_linear_floor(242, 887923117)
        &&& is_linear_floor(243, 896269353)
        &&& is_linear_floor(244, 904661174)
        &&& is_linear_floor(245, 913098651)
        &&& is_linear_floor(246, 921581856)
        &&& is_linear_floor(247, 930110858)
        &&& is_linear_floor(248, 938685728)
        &&& is_linear_floor(249, 947306536)
        &&& is_linear_floor(250, 955973353)
        &&& is_linear_floor(251, 964686247)
        &&& is_linear_floor(252, 973445290)
        &&& is_linear_floor(253, 982250550)
        &&& is_linear_floor(254, 991102097)
        &&& is_linear_floor(255, 1000000000)
    }) by (nonlinear_arith);
}

/// Every entry of [`LINEAR`] is what the formula gives for its channel,
/// rounded down.
pub proof fn lemma_linear_is_floor(v: int)
    requires
        0 <= v <= 255,
    ensures
        is_linear_floor(v, LINEAR[v] as int),
{
    if v < 16 {
        lemma_linear_floor_from_0(v);
    } else if v < 32 {
        lemma_linear_floor_from_16(v);
    } else if v < 48 {
        lemma_linear_floor_from_32(v);
    } else if v < 64 {
        lemma_linear_floor_from_48(v);
    } else if v < 80 {
        lemma_linear_floor_from_64(v);
    } else if v < 96 {
        lemma_linear_floor_from_80(v);
    } else if v < 112 {
        lemma_linear_floor_from_96(v);
    } else if v < 128 {
        lemma_linear_floor_from_112(v);
    } else if v < 144 {
        lemma_linear_floor_from_128(v);
    } else if v < 160 {
        lemma_linear_floor_from_144(v);
    } else if v < 176 {
        lemma_linear_floor_from_160(v);
    } else if v < 192 {
        lemma_linear_floor_from_176(v);
    } else if v < 208 {
        lemma_linear_floor_from_192(v);
    } else if v < 224 {
        lemma_linear_floor_from_208(v);
    } else if v < 240 {
        lemma_linear_floor_from_224(v);
    } else {
        lemma_linear_floor_from_240(v);
    }
}

/// A channel one step brighter never gives off less light.
proof fn lemma_linear_step(v: int)
    requires
        0 <= v < 255,
    ensures
        LINEAR[v] <= LINEAR[v + 1],
{
}

/// A brighter channel never gives off less light, no channel gives off more
/// than full intensity, and the brightest one gives off exactly that.
pub proof fn lemma_linear_grows(v: int, w: int)
    requires
        0 <= v <= w <= 255,
    ensures
        LINEAR[v] <= LINEAR[w] <= LINEAR_ONE,
        LINEAR[255] == LINEAR_ONE,
    decreases w - v,
{
    if v < w {
        lemma_linear_grows(v, w - 1);
        lemma_linear_step(w - 1);
    }
}

/// The linear-light value of the channel `v`.
pub fn linear(v: u8) -> (t: u32)
    ensures
        t == LINEAR[v as int],
        t <= LINEAR_ONE,
{
    LINEAR[v as usize]
}

} // verus!
