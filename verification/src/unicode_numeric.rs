use vstd::prelude::*;

verus! {

pub open spec fn spec_unicode_digit_part0(c: char) -> Option<u32> {
    match c {
        '\u{b2}' => Some(2u32),
        '\u{b3}' => Some(3u32),
        '\u{b9}' => Some(1u32),
        '\u{1369}' => Some(1u32),
        '\u{136a}' => Some(2u32),
        '\u{136b}' => Some(3u32),
        '\u{136c}' => Some(4u32),
        '\u{136d}' => Some(5u32),
        '\u{136e}' => Some(6u32),
        '\u{136f}' => Some(7u32),
        '\u{1370}' => Some(8u32),
        '\u{1371}' => Some(9u32),
        '\u{19da}' => Some(1u32),
        '\u{2070}' => Some(0u32),
        '\u{2074}' => Some(4u32),
        '\u{2075}' => Some(5u32),
        '\u{2076}' => Some(6u32),
        '\u{2077}' => Some(7u32),
        '\u{2078}' => Some(8u32),
        '\u{2079}' => Some(9u32),
        '\u{2080}' => Some(0u32),
        '\u{2081}' => Some(1u32),
        '\u{2082}' => Some(2u32),
        '\u{2083}' => Some(3u32),
        '\u{2084}' => Some(4u32),
        '\u{2085}' => Some(5u32),
        '\u{2086}' => Some(6u32),
        '\u{2087}' => Some(7u32),
        '\u{2088}' => Some(8u32),
        '\u{2089}' => Some(9u32),
        '\u{2460}' => Some(1u32),
        '\u{2461}' => Some(2u32),
        '\u{2462}' => Some(3u32),
        '\u{2463}' => Some(4u32),
        '\u{2464}' => Some(5u32),
        '\u{2465}' => Some(6u32),
        '\u{2466}' => Some(7u32),
        '\u{2467}' => Some(8u32),
        '\u{2468}' => Some(9u32),
        '\u{2474}' => Some(1u32),
        '\u{2475}' => Some(2u32),
        '\u{2476}' => Some(3u32),
        '\u{2477}' => Some(4u32),
        '\u{2478}' => Some(5u32),
        '\u{2479}' => Some(6u32),
        '\u{247a}' => Some(7u32),
        '\u{247b}' => Some(8u32),
        '\u{247c}' => Some(9u32),
        _ => None,
    }
}

pub open spec fn spec_unicode_digit_part1(c: char) -> Option<u32> {
    match c {
        '\u{2488}' => Some(1u32),
        '\u{2489}' => Some(2u32),
        '\u{248a}' => Some(3u32),
        '\u{248b}' => Some(4u32),
        '\u{248c}' => Some(5u32),
        '\u{248d}' => Some(6u32),
        '\u{248e}' => Some(7u32),
        '\u{248f}' => Some(8u32),
        '\u{2490}' => Some(9u32),
        '\u{24ea}' => Some(0u32),
        '\u{24f5}' => Some(1u32),
        '\u{24f6}' => Some(2u32),
        '\u{24f7}' => Some(3u32),
        '\u{24f8}' => Some(4u32),
        '\u{24f9}' => Some(5u32),
        '\u{24fa}' => Some(6u32),
        '\u{24fb}' => Some(7u32),
        '\u{24fc}' => Some(8u32),
        '\u{24fd}' => Some(9u32),
        '\u{24ff}' => Some(0u32),
        '\u{2776}' => Some(1u32),
        '\u{2777}' => Some(2u32),
        '\u{2778}' => Some(3u32),
        '\u{2779}' => Some(4u32),
        '\u{277a}' => Some(5u32),
        '\u{277b}' => Some(6u32),
        '\u{277c}' => Some(7u32),
        '\u{277d}' => Some(8u32),
        '\u{277e}' => Some(9u32),
        '\u{2780}' => Some(1u32),
        '\u{2781}' => Some(2u32),
        '\u{2782}' => Some(3u32),
        '\u{2783}' => Some(4u32),
        '\u{2784}' => Some(5u32),
        '\u{2785}' => Some(6u32),
        '\u{2786}' => Some(7u32),
        '\u{2787}' => Some(8u32),
        '\u{2788}' => Some(9u32),
        '\u{278a}' => Some(1u32),
        '\u{278b}' => Some(2u32),
        '\u{278c}' => Some(3u32),
        '\u{278d}' => Some(4u32),
        '\u{278e}' => Some(5u32),
        '\u{278f}' => Some(6u32),
        '\u{2790}' => Some(7u32),
        '\u{2791}' => Some(8u32),
        '\u{2792}' => Some(9u32),
        '\u{10a40}' => Some(1u32),
        _ => None,
    }
}

pub open spec fn spec_unicode_digit_part2(c: char) -> Option<u32> {
    match c {
        '\u{10a41}' => Some(2u32),
        '\u{10a42}' => Some(3u32),
        '\u{10a43}' => Some(4u32),
        '\u{10e60}' => Some(1u32),
        '\u{10e61}' => Some(2u32),
        '\u{10e62}' => Some(3u32),
        '\u{10e63}' => Some(4u32),
        '\u{10e64}' => Some(5u32),
        '\u{10e65}' => Some(6u32),
        '\u{10e66}' => Some(7u32),
        '\u{10e67}' => Some(8u32),
        '\u{10e68}' => Some(9u32),
        '\u{11052}' => Some(1u32),
        '\u{11053}' => Some(2u32),
        '\u{11054}' => Some(3u32),
        '\u{11055}' => Some(4u32),
        '\u{11056}' => Some(5u32),
        '\u{11057}' => Some(6u32),
        '\u{11058}' => Some(7u32),
        '\u{11059}' => Some(8u32),
        '\u{1105a}' => Some(9u32),
        '\u{1f100}' => Some(0u32),
        '\u{1f101}' => Some(0u32),
        '\u{1f102}' => Some(1u32),
        '\u{1f103}' => Some(2u32),
        '\u{1f104}' => Some(3u32),
        '\u{1f105}' => Some(4u32),
        '\u{1f106}' => Some(5u32),
        '\u{1f107}' => Some(6u32),
        '\u{1f108}' => Some(7u32),
        '\u{1f109}' => Some(8u32),
        '\u{1f10a}' => Some(9u32),
        _ => None,
    }
}

/// The value of a Unicode character that has a digit value (Unicode
/// `Numeric_Type=Digit`) without being a decimal digit, such as superscripts
/// and circled digits.
pub open spec fn spec_unicode_digit(c: char) -> Option<u32> {
    if (c as u32) <= 0x247c {
        spec_unicode_digit_part0(c)
    } else if (c as u32) <= 0x10a40 {
        spec_unicode_digit_part1(c)
    } else {
        spec_unicode_digit_part2(c)
    }
}

fn unicode_digit_part0(c: char) -> (r: Option<u32>)
    ensures
        r == spec_unicode_digit_part0(c),
{
    match c {
        '\u{b2}' => Some(2u32),
        '\u{b3}' => Some(3u32),
        '\u{b9}' => Some(1u32),
        '\u{1369}' => Some(1u32),
        '\u{136a}' => Some(2u32),
        '\u{136b}' => Some(3u32),
        '\u{136c}' => Some(4u32),
        '\u{136d}' => Some(5u32),
        '\u{136e}' => Some(6u32),
        '\u{136f}' => Some(7u32),
        '\u{1370}' => Some(8u32),
        '\u{1371}' => Some(9u32),
        '\u{19da}' => Some(1u32),
        '\u{2070}' => Some(0u32),
        '\u{2074}' => Some(4u32),
        '\u{2075}' => Some(5u32),
        '\u{2076}' => Some(6u32),
        '\u{2077}' => Some(7u32),
        '\u{2078}' => Some(8u32),
        '\u{2079}' => Some(9u32),
        '\u{2080}' => Some(0u32),
        '\u{2081}' => Some(1u32),
        '\u{2082}' => Some(2u32),
        '\u{2083}' => Some(3u32),
        '\u{2084}' => Some(4u32),
        '\u{2085}' => Some(5u32),
        '\u{2086}' => Some(6u32),
        '\u{2087}' => Some(7u32),
        '\u{2088}' => Some(8u32),
        '\u{2089}' => Some(9u32),
        '\u{2460}' => Some(1u32),
        '\u{2461}' => Some(2u32),
        '\u{2462}' => Some(3u32),
        '\u{2463}' => Some(4u32),
        '\u{2464}' => Some(5u32),
        '\u{2465}' => Some(6u32),
        '\u{2466}' => Some(7u32),
        '\u{2467}' => Some(8u32),
        '\u{2468}' => Some(9u32),
        '\u{2474}' => Some(1u32),
        '\u{2475}' => Some(2u32),
        '\u{2476}' => Some(3u32),
        '\u{2477}' => Some(4u32),
        '\u{2478}' => Some(5u32),
        '\u{2479}' => Some(6u32),
        '\u{247a}' => Some(7u32),
        '\u{247b}' => Some(8u32),
        '\u{247c}' => Some(9u32),
        _ => None,
    }
}

fn unicode_digit_part1(c: char) -> (r: Option<u32>)
    ensures
        r == spec_unicode_digit_part1(c),
{
    match c {
        '\u{2488}' => Some(1u32),
        '\u{2489}' => Some(2u32),
        '\u{248a}' => Some(3u32),
        '\u{248b}' => Some(4u32),
        '\u{248c}' => Some(5u32),
        '\u{248d}' => Some(6u32),
        '\u{248e}' => Some(7u32),
        '\u{248f}' => Some(8u32),
        '\u{2490}' => Some(9u32),
        '\u{24ea}' => Some(0u32),
        '\u{24f5}' => Some(1u32),
        '\u{24f6}' => Some(2u32),
        '\u{24f7}' => Some(3u32),
        '\u{24f8}' => Some(4u32),
        '\u{24f9}' => Some(5u32),
        '\u{24fa}' => Some(6u32),
        '\u{24fb}' => Some(7u32),
        '\u{24fc}' => Some(8u32),
        '\u{24fd}' => Some(9u32),
        '\u{24ff}' => Some(0u32),
        '\u{2776}' => Some(1u32),
        '\u{2777}' => Some(2u32),
        '\u{2778}' => Some(3u32),
        '\u{2779}' => Some(4u32),
        '\u{277a}' => Some(5u32),
        '\u{277b}' => Some(6u32),
        '\u{277c}' => Some(7u32),
        '\u{277d}' => Some(8u32),
        '\u{277e}' => Some(9u32),
        '\u{2780}' => Some(1u32),
        '\u{2781}' => Some(2u32),
        '\u{2782}' => Some(3u32),
        '\u{2783}' => Some(4u32),
        '\u{2784}' => Some(5u32),
        '\u{2785}' => Some(6u32),
        '\u{2786}' => Some(7u32),
        '\u{2787}' => Some(8u32),
        '\u{2788}' => Some(9u32),
        '\u{278a}' => Some(1u32),
        '\u{278b}' => Some(2u32),
        '\u{278c}' => Some(3u32),
        '\u{278d}' => Some(4u32),
        '\u{278e}' => Some(5u32),
        '\u{278f}' => Some(6u32),
        '\u{2790}' => Some(7u32),
        '\u{2791}' => Some(8u32),
        '\u{2792}' => Some(9u32),
        '\u{10a40}' => Some(1u32),
        _ => None,
    }
}

fn unicode_digit_part2(c: char) -> (r: Option<u32>)
    ensures
        r == spec_unicode_digit_part2(c),
{
    match c {
        '\u{10a41}' => Some(2u32),
        '\u{10a42}' => Some(3u32),
        '\u{10a43}' => Some(4u32),
        '\u{10e60}' => Some(1u32),
        '\u{10e61}' => Some(2u32),
        '\u{10e62}' => Some(3u32),
        '\u{10e63}' => Some(4u32),
        '\u{10e64}' => Some(5u32),
        '\u{10e65}' => Some(6u32),
        '\u{10e66}' => Some(7u32),
        '\u{10e67}' => Some(8u32),
        '\u{10e68}' => Some(9u32),
        '\u{11052}' => Some(1u32),
        '\u{11053}' => Some(2u32),
        '\u{11054}' => Some(3u32),
        '\u{11055}' => Some(4u32),
        '\u{11056}' => Some(5u32),
        '\u{11057}' => Some(6u32),
        '\u{11058}' => Some(7u32),
        '\u{11059}' => Some(8u32),
        '\u{1105a}' => Some(9u32),
        '\u{1f100}' => Some(0u32),
        '\u{1f101}' => Some(0u32),
        '\u{1f102}' => Some(1u32),
        '\u{1f103}' => Some(2u32),
        '\u{1f104}' => Some(3u32),
        '\u{1f105}' => Some(4u32),
        '\u{1f106}' => Some(5u32),
        '\u{1f107}' => Some(6u32),
        '\u{1f108}' => Some(7u32),
        '\u{1f109}' => Some(8u32),
        '\u{1f10a}' => Some(9u32),
        _ => None,
    }
}

/// The value of a Unicode character that has a digit value (Unicode
/// `Numeric_Type=Digit`) without being a decimal digit, such as superscripts
/// and circled digits.
pub fn unicode_digit_value(c: char) -> (r: Option<u32>)
    ensures
        r == spec_unicode_digit(c),
{
    let code = c as u32;
    if code <= 0x247c {
        unicode_digit_part0(c)
    } else if code <= 0x10a40 {
        unicode_digit_part1(c)
    } else {
        unicode_digit_part2(c)
    }
}

pub open spec fn spec_unicode_numeric_part0(c: char) -> Option<(i64, i32)> {
    match c {
        '\u{b2}' => Some((2i64, 0i32)),
        '\u{b3}' => Some((3i64, 0i32)),
        '\u{b9}' => Some((1i64, 0i32)),
        '\u{bc}' => Some((25i64, -2i32)),
        '\u{bd}' => Some((5i64, -1i32)),
        '\u{be}' => Some((75i64, -2i32)),
        '\u{9f4}' => Some((625i64, -4i32)),
        '\u{9f5}' => Some((125i64, -3i32)),
        '\u{9f6}' => Some((1875i64, -4i32)),
        '\u{9f7}' => Some((25i64, -2i32)),
        '\u{9f8}' => Some((75i64, -2i32)),
        '\u{9f9}' => Some((16i64, 0i32)),
        '\u{b72}' => Some((25i64, -2i32)),
        '\u{b73}' => Some((5i64, -1i32)),
        '\u{b74}' => Some((75i64, -2i32)),
        '\u{b75}' => Some((625i64, -4i32)),
        '\u{b76}' => Some((125i64, -3i32)),
        '\u{b77}' => Some((1875i64, -4i32)),
        '\u{bf0}' => Some((1i64, 1i32)),
        '\u{bf1}' => Some((1i64, 2i32)),
        '\u{bf2}' => Some((1i64, 3i32)),
        '\u{c78}' => Some((0i64, 0i32)),
        '\u{c79}' => Some((1i64, 0i32)),
        '\u{c7a}' => Some((2i64, 0i32)),
        '\u{c7b}' => Some((3i64, 0i32)),
        '\u{c7c}' => Some((1i64, 0i32)),
        '\u{c7d}' => Some((2i64, 0i32)),
        '\u{c7e}' => Some((3i64, 0i32)),
        '\u{d58}' => Some((625i64, -5i32)),
        '\u{d59}' => Some((25i64, -3i32)),
        '\u{d5a}' => Some((375i64, -4i32)),
        '\u{d5b}' => Some((5i64, -2i32)),
        '\u{d5c}' => Some((1i64, -1i32)),
        '\u{d5d}' => Some((15i64, -2i32)),
        '\u{d5e}' => Some((2i64, -1i32)),
        '\u{d70}' => Some((1i64, 1i32)),
        '\u{d71}' => Some((1i64, 2i32)),
        '\u{d72}' => Some((1i64, 3i32)),
        '\u{d73}' => Some((25i64, -2i32)),
        '\u{d74}' => Some((5i64, -1i32)),
        '\u{d75}' => Some((75i64, -2i32)),
        '\u{d76}' => Some((625i64, -4i32)),
        '\u{d77}' => Some((125i64, -3i32)),
        '\u{d78}' => Some((1875i64, -4i32)),
        '\u{f2a}' => Some((5i64, -1i32)),
        '\u{f2b}' => Some((15i64, -1i32)),
        '\u{f2c}' => Some((25i64, -1i32)),
        '\u{f2d}' => Some((35i64, -1i32)),
        _ => None,
    }
}

pub open spec fn spec_unicode_numeric_part1(c: char) -> Option<(i64, i32)> {
    match c {
        '\u{f2e}' => Some((45i64, -1i32)),
        '\u{f2f}' => Some((55i64, -1i32)),
        '\u{f30}' => Some((65i64, -1i32)),
        '\u{f31}' => Some((75i64, -1i32)),
        '\u{f32}' => Some((85i64, -1i32)),
        '\u{f33}' => Some((-5i64, -1i32)),
        '\u{1369}' => Some((1i64, 0i32)),
        '\u{136a}' => Some((2i64, 0i32)),
        '\u{136b}' => Some((3i64, 0i32)),
        '\u{136c}' => Some((4i64, 0i32)),
        '\u{136d}' => Some((5i64, 0i32)),
        '\u{136e}' => Some((6i64, 0i32)),
        '\u{136f}' => Some((7i64, 0i32)),
        '\u{1370}' => Some((8i64, 0i32)),
        '\u{1371}' => Some((9i64, 0i32)),
        '\u{1372}' => Some((1i64, 1i32)),
        '\u{1373}' => Some((2i64, 1i32)),
        '\u{1374}' => Some((3i64, 1i32)),
        '\u{1375}' => Some((4i64, 1i32)),
        '\u{1376}' => Some((5i64, 1i32)),
        '\u{1377}' => Some((6i64, 1i32)),
        '\u{1378}' => Some((7i64, 1i32)),
        '\u{1379}' => Some((8i64, 1i32)),
        '\u{137a}' => Some((9i64, 1i32)),
        '\u{137b}' => Some((1i64, 2i32)),
        '\u{137c}' => Some((1i64, 4i32)),
        '\u{16ee}' => Some((17i64, 0i32)),
        '\u{16ef}' => Some((18i64, 0i32)),
        '\u{16f0}' => Some((19i64, 0i32)),
        '\u{17f0}' => Some((0i64, 0i32)),
        '\u{17f1}' => Some((1i64, 0i32)),
        '\u{17f2}' => Some((2i64, 0i32)),
        '\u{17f3}' => Some((3i64, 0i32)),
        '\u{17f4}' => Some((4i64, 0i32)),
        '\u{17f5}' => Some((5i64, 0i32)),
        '\u{17f6}' => Some((6i64, 0i32)),
        '\u{17f7}' => Some((7i64, 0i32)),
        '\u{17f8}' => Some((8i64, 0i32)),
        '\u{17f9}' => Some((9i64, 0i32)),
        '\u{19da}' => Some((1i64, 0i32)),
        '\u{2070}' => Some((0i64, 0i32)),
        '\u{2074}' => Some((4i64, 0i32)),
        '\u{2075}' => Some((5i64, 0i32)),
        '\u{2076}' => Some((6i64, 0i32)),
        '\u{2077}' => Some((7i64, 0i32)),
        '\u{2078}' => Some((8i64, 0i32)),
        '\u{2079}' => Some((9i64, 0i32)),
        '\u{2080}' => Some((0i64, 0i32)),
        _ => None,
    }
}

pub open spec fn spec_unicode_numeric_part2(c: char) -> Option<(i64, i32)> {
    match c {
        '\u{2081}' => Some((1i64, 0i32)),
        '\u{2082}' => Some((2i64, 0i32)),
        '\u{2083}' => Some((3i64, 0i32)),
        '\u{2084}' => Some((4i64, 0i32)),
        '\u{2085}' => Some((5i64, 0i32)),
        '\u{2086}' => Some((6i64, 0i32)),
        '\u{2087}' => Some((7i64, 0i32)),
        '\u{2088}' => Some((8i64, 0i32)),
        '\u{2089}' => Some((9i64, 0i32)),
        '\u{2150}' => Some((14285714285714285i64, -17i32)),
        '\u{2151}' => Some((1111111111111111i64, -16i32)),
        '\u{2152}' => Some((1i64, -1i32)),
        '\u{2153}' => Some((3333333333333333i64, -16i32)),
        '\u{2154}' => Some((6666666666666666i64, -16i32)),
        '\u{2155}' => Some((2i64, -1i32)),
        '\u{2156}' => Some((4i64, -1i32)),
        '\u{2157}' => Some((6i64, -1i32)),
        '\u{2158}' => Some((8i64, -1i32)),
        '\u{2159}' => Some((16666666666666666i64, -17i32)),
        '\u{215a}' => Some((8333333333333334i64, -16i32)),
        '\u{215b}' => Some((125i64, -3i32)),
        '\u{215c}' => Some((375i64, -3i32)),
        '\u{215d}' => Some((625i64, -3i32)),
        '\u{215e}' => Some((875i64, -3i32)),
        '\u{215f}' => Some((1i64, 0i32)),
        '\u{2160}' => Some((1i64, 0i32)),
        '\u{2161}' => Some((2i64, 0i32)),
        '\u{2162}' => Some((3i64, 0i32)),
        '\u{2163}' => Some((4i64, 0i32)),
        '\u{2164}' => Some((5i64, 0i32)),
        '\u{2165}' => Some((6i64, 0i32)),
        '\u{2166}' => Some((7i64, 0i32)),
        '\u{2167}' => Some((8i64, 0i32)),
        '\u{2168}' => Some((9i64, 0i32)),
        '\u{2169}' => Some((1i64, 1i32)),
        '\u{216a}' => Some((11i64, 0i32)),
        '\u{216b}' => Some((12i64, 0i32)),
        '\u{216c}' => Some((5i64, 1i32)),
        '\u{216d}' => Some((1i64, 2i32)),
        '\u{216e}' => Some((5i64, 2i32)),
        '\u{216f}' => Some((1i64, 3i32)),
        '\u{2170}' => Some((1i64, 0i32)),
        '\u{2171}' => Some((2i64, 0i32)),
        '\u{2172}' => Some((3i64, 0i32)),
        '\u{2173}' => Some((4i64, 0i32)),
        '\u{2174}' => Some((5i64, 0i32)),
        '\u{2175}' => Some((6i64, 0i32)),
        '\u{2176}' => Some((7i64, 0i32)),
        _ => None,
    }
}

pub open spec fn spec_unicode_numeric_part3(c: char) -> Option<(i64, i32)> {
    match c {
        '\u{2177}' => Some((8i64, 0i32)),
        '\u{2178}' => Some((9i64, 0i32)),
        '\u{2179}' => Some((1i64, 1i32)),
        '\u{217a}' => Some((11i64, 0i32)),
        '\u{217b}' => Some((12i64, 0i32)),
        '\u{217c}' => Some((5i64, 1i32)),
        '\u{217d}' => Some((1i64, 2i32)),
        '\u{217e}' => Some((5i64, 2i32)),
        '\u{217f}' => Some((1i64, 3i32)),
        '\u{2180}' => Some((1i64, 3i32)),
        '\u{2181}' => Some((5i64, 3i32)),
        '\u{2182}' => Some((1i64, 4i32)),
        '\u{2185}' => Some((6i64, 0i32)),
        '\u{2186}' => Some((5i64, 1i32)),
        '\u{2187}' => Some((5i64, 4i32)),
        '\u{2188}' => Some((1i64, 5i32)),
        '\u{2189}' => Some((0i64, 0i32)),
        '\u{2460}' => Some((1i64, 0i32)),
        '\u{2461}' => Some((2i64, 0i32)),
        '\u{2462}' => Some((3i64, 0i32)),
        '\u{2463}' => Some((4i64, 0i32)),
        '\u{2464}' => Some((5i64, 0i32)),
        '\u{2465}' => Some((6i64, 0i32)),
        '\u{2466}' => Some((7i64, 0i32)),
        '\u{2467}' => Some((8i64, 0i32)),
        '\u{2468}' => Some((9i64, 0i32)),
        '\u{2469}' => Some((1i64, 1i32)),
        '\u{246a}' => Some((11i64, 0i32)),
        '\u{246b}' => Some((12i64, 0i32)),
        '\u{246c}' => Some((13i64, 0i32)),
        '\u{246d}' => Some((14i64, 0i32)),
        '\u{246e}' => Some((15i64, 0i32)),
        '\u{246f}' => Some((16i64, 0i32)),
        '\u{2470}' => Some((17i64, 0i32)),
        '\u{2471}' => Some((18i64, 0i32)),
        '\u{2472}' => Some((19i64, 0i32)),
        '\u{2473}' => Some((2i64, 1i32)),
        '\u{2474}' => Some((1i64, 0i32)),
        '\u{2475}' => Some((2i64, 0i32)),
        '\u{2476}' => Some((3i64, 0i32)),
        '\u{2477}' => Some((4i64, 0i32)),
        '\u{2478}' => Some((5i64, 0i32)),
        '\u{2479}' => Some((6i64, 0i32)),
        '\u{247a}' => Some((7i64, 0i32)),
        '\u{247b}' => Some((8i64, 0i32)),
        '\u{247c}' => Some((9i64, 0i32)),
        '\u{247d}' => Some((1i64, 1i32)),
        '\u{247e}' => Some((11i64, 0i32)),
        _ => None,
    }
}

pub open spec fn spec_unicode_numeric_part4(c: char) -> Option<(i64, i32)> {
    match c {
        '\u{247f}' => Some((12i64, 0i32)),
        '\u{2480}' => Some((13i64, 0i32)),
        '\u{2481}' => Some((14i64, 0i32)),
        '\u{2482}' => Some((15i64, 0i32)),
        '\u{2483}' => Some((16i64, 0i32)),
        '\u{2484}' => Some((17i64, 0i32)),
        '\u{2485}' => Some((18i64, 0i32)),
        '\u{2486}' => Some((19i64, 0i32)),
        '\u{2487}' => Some((2i64, 1i32)),
        '\u{2488}' => Some((1i64, 0i32)),
        '\u{2489}' => Some((2i64, 0i32)),
        '\u{248a}' => Some((3i64, 0i32)),
        '\u{248b}' => Some((4i64, 0i32)),
        '\u{248c}' => Some((5i64, 0i32)),
        '\u{248d}' => Some((6i64, 0i32)),
        '\u{248e}' => Some((7i64, 0i32)),
        '\u{248f}' => Some((8i64, 0i32)),
        '\u{2490}' => Some((9i64, 0i32)),
        '\u{2491}' => Some((1i64, 1i32)),
        '\u{2492}' => Some((11i64, 0i32)),
        '\u{2493}' => Some((12i64, 0i32)),
        '\u{2494}' => Some((13i64, 0i32)),
        '\u{2495}' => Some((14i64, 0i32)),
        '\u{2496}' => Some((15i64, 0i32)),
        '\u{2497}' => Some((16i64, 0i32)),
        '\u{2498}' => Some((17i64, 0i32)),
        '\u{2499}' => Some((18i64, 0i32)),
        '\u{249a}' => Some((19i64, 0i32)),
        '\u{249b}' => Some((2i64, 1i32)),
        '\u{24ea}' => Some((0i64, 0i32)),
        '\u{24eb}' => Some((11i64, 0i32)),
        '\u{24ec}' => Some((12i64, 0i32)),
        '\u{24ed}' => Some((13i64, 0i32)),
        '\u{24ee}' => Some((14i64, 0i32)),
        '\u{24ef}' => Some((15i64, 0i32)),
        '\u{24f0}' => Some((16i64, 0i32)),
        '\u{24f1}' => Some((17i64, 0i32)),
        '\u{24f2}' => Some((18i64, 0i32)),
        '\u{24f3}' => Some((19i64, 0i32)),
        '\u{24f4}' => Some((2i64, 1i32)),
        '\u{24f5}' => Some((1i64, 0i32)),
        '\u{24f6}' => Some((2i64, 0i32)),
        '\u{24f7}' => Some((3i64, 0i32)),
        '\u{24f8}' => Some((4i64, 0i32)),
        '\u{24f9}' => Some((5i64, 0i32)),
        '\u{24fa}' => Some((6i64, 0i32)),
        '\u{24fb}' => Some((7i64, 0i32)),
        '\u{24fc}' => Some((8i64, 0i32)),
        _ => None,
    }
}

pub open spec fn spec_unicode_numeric_part5(c: char) -> Option<(i64, i32)> {
    match c {
        '\u{24fd}' => Some((9i64, 0i32)),
        '\u{24fe}' => Some((1i64, 1i32)),
        '\u{24ff}' => Some((0i64, 0i32)),
        '\u{2776}' => Some((1i64, 0i32)),
        '\u{2777}' => Some((2i64, 0i32)),
        '\u{2778}' => Some((3i64, 0i32)),
        '\u{2779}' => Some((4i64, 0i32)),
        '\u{277a}' => Some((5i64, 0i32)),
        '\u{277b}' => Some((6i64, 0i32)),
        '\u{277c}' => Some((7i64, 0i32)),
        '\u{277d}' => Some((8i64, 0i32)),
        '\u{277e}' => Some((9i64, 0i32)),
        '\u{277f}' => Some((1i64, 1i32)),
        '\u{2780}' => Some((1i64, 0i32)),
        '\u{2781}' => Some((2i64, 0i32)),
        '\u{2782}' => Some((3i64, 0i32)),
        '\u{2783}' => Some((4i64, 0i32)),
        '\u{2784}' => Some((5i64, 0i32)),
        '\u{2785}' => Some((6i64, 0i32)),
        '\u{2786}' => Some((7i64, 0i32)),
        '\u{2787}' => Some((8i64, 0i32)),
        '\u{2788}' => Some((9i64, 0i32)),
        '\u{2789}' => Some((1i64, 1i32)),
        '\u{278a}' => Some((1i64, 0i32)),
        '\u{278b}' => Some((2i64, 0i32)),
        '\u{278c}' => Some((3i64, 0i32)),
        '\u{278d}' => Some((4i64, 0i32)),
        '\u{278e}' => Some((5i64, 0i32)),
        '\u{278f}' => Some((6i64, 0i32)),
        '\u{2790}' => Some((7i64, 0i32)),
        '\u{2791}' => Some((8i64, 0i32)),
        '\u{2792}' => Some((9i64, 0i32)),
        '\u{2793}' => Some((1i64, 1i32)),
        '\u{2cfd}' => Some((5i64, -1i32)),
        '\u{3007}' => Some((0i64, 0i32)),
        '\u{3021}' => Some((1i64, 0i32)),
        '\u{3022}' => Some((2i64, 0i32)),
        '\u{3023}' => Some((3i64, 0i32)),
        '\u{3024}' => Some((4i64, 0i32)),
        '\u{3025}' => Some((5i64, 0i32)),
        '\u{3026}' => Some((6i64, 0i32)),
        '\u{3027}' => Some((7i64, 0i32)),
        '\u{3028}' => Some((8i64, 0i32)),
        '\u{3029}' => Some((9i64, 0i32)),
        '\u{3038}' => Some((1i64, 1i32)),
        '\u{3039}' => Some((2i64, 1i32)),
        '\u{303a}' => Some((3i64, 1i32)),
        '\u{3192}' => Some((1i64, 0i32)),
        _ => None,
    }
}

pub open spec fn spec_unicode_numeric_part6(c: char) -> Option<(i64, i32)> {
    match c {
        '\u{3193}' => Some((2i64, 0i32)),
        '\u{3194}' => Some((3i64, 0i32)),
        '\u{3195}' => Some((4i64, 0i32)),
        '\u{3220}' => Some((1i64, 0i32)),
        '\u{3221}' => Some((2i64, 0i32)),
        '\u{3222}' => Some((3i64, 0i32)),
        '\u{3223}' => Some((4i64, 0i32)),
        '\u{3224}' => Some((5i64, 0i32)),
        '\u{3225}' => Some((6i64, 0i32)),
        '\u{3226}' => Some((7i64, 0i32)),
        '\u{3227}' => Some((8i64, 0i32)),
        '\u{3228}' => Some((9i64, 0i32)),
        '\u{3229}' => Some((1i64, 1i32)),
        '\u{3248}' => Some((1i64, 1i32)),
        '\u{3249}' => Some((2i64, 1i32)),
        '\u{324a}' => Some((3i64, 1i32)),
        '\u{324b}' => Some((4i64, 1i32)),
        '\u{324c}' => Some((5i64, 1i32)),
        '\u{324d}' => Some((6i64, 1i32)),
        '\u{324e}' => Some((7i64, 1i32)),
        '\u{324f}' => Some((8i64, 1i32)),
        '\u{3251}' => Some((21i64, 0i32)),
        '\u{3252}' => Some((22i64, 0i32)),
        '\u{3253}' => Some((23i64, 0i32)),
        '\u{3254}' => Some((24i64, 0i32)),
        '\u{3255}' => Some((25i64, 0i32)),
        '\u{3256}' => Some((26i64, 0i32)),
        '\u{3257}' => Some((27i64, 0i32)),
        '\u{3258}' => Some((28i64, 0i32)),
        '\u{3259}' => Some((29i64, 0i32)),
        '\u{325a}' => Some((3i64, 1i32)),
        '\u{325b}' => Some((31i64, 0i32)),
        '\u{325c}' => Some((32i64, 0i32)),
        '\u{325d}' => Some((33i64, 0i32)),
        '\u{325e}' => Some((34i64, 0i32)),
        '\u{325f}' => Some((35i64, 0i32)),
        '\u{3280}' => Some((1i64, 0i32)),
        '\u{3281}' => Some((2i64, 0i32)),
        '\u{3282}' => Some((3i64, 0i32)),
        '\u{3283}' => Some((4i64, 0i32)),
        '\u{3284}' => Some((5i64, 0i32)),
        '\u{3285}' => Some((6i64, 0i32)),
        '\u{3286}' => Some((7i64, 0i32)),
        '\u{3287}' => Some((8i64, 0i32)),
        '\u{3288}' => Some((9i64, 0i32)),
        '\u{3289}' => Some((1i64, 1i32)),
        '\u{32b1}' => Some((36i64, 0i32)),
        '\u{32b2}' => Some((37i64, 0i32)),
        _ => None,
    }
}

pub open spec fn spec_unicode_numeric_part7(c: char) -> Option<(i64, i32)> {
    match c {
        '\u{32b3}' => Some((38i64, 0i32)),
        '\u{32b4}' => Some((39i64, 0i32)),
        '\u{32b5}' => Some((4i64, 1i32)),
        '\u{32b6}' => Some((41i64, 0i32)),
        '\u{32b7}' => Some((42i64, 0i32)),
        '\u{32b8}' => Some((43i64, 0i32)),
        '\u{32b9}' => Some((44i64, 0i32)),
        '\u{32ba}' => Some((45i64, 0i32)),
        '\u{32bb}' => Some((46i64, 0i32)),
        '\u{32bc}' => Some((47i64, 0i32)),
        '\u{32bd}' => Some((48i64, 0i32)),
        '\u{32be}' => Some((49i64, 0i32)),
        '\u{32bf}' => Some((5i64, 1i32)),
        '\u{3405}' => Some((5i64, 0i32)),
        '\u{3483}' => Some((2i64, 0i32)),
        '\u{382a}' => Some((5i64, 0i32)),
        '\u{3b4d}' => Some((7i64, 0i32)),
        '\u{4e00}' => Some((1i64, 0i32)),
        '\u{4e03}' => Some((7i64, 0i32)),
        '\u{4e07}' => Some((1i64, 4i32)),
        '\u{4e09}' => Some((3i64, 0i32)),
        '\u{4e24}' => Some((2i64, 0i32)),
        '\u{4e5d}' => Some((9i64, 0i32)),
        '\u{4e8c}' => Some((2i64, 0i32)),
        '\u{4e94}' => Some((5i64, 0i32)),
        '\u{4e96}' => Some((4i64, 0i32)),
        '\u{4eac}' => Some((1i64, 16i32)),
        '\u{4ebf}' => Some((1i64, 8i32)),
        '\u{4ec0}' => Some((1i64, 1i32)),
        '\u{4edf}' => Some((1i64, 3i32)),
        '\u{4ee8}' => Some((3i64, 0i32)),
        '\u{4f0d}' => Some((5i64, 0i32)),
        '\u{4f70}' => Some((1i64, 2i32)),
        '\u{4fe9}' => Some((2i64, 0i32)),
        '\u{5006}' => Some((2i64, 0i32)),
        '\u{5104}' => Some((1i64, 8i32)),
        '\u{5146}' => Some((1i64, 6i32)),
        '\u{5169}' => Some((2i64, 0i32)),
        '\u{516b}' => Some((8i64, 0i32)),
        '\u{516d}' => Some((6i64, 0i32)),
        '\u{5341}' => Some((1i64, 1i32)),
        '\u{5343}' => Some((1i64, 3i32)),
        '\u{5344}' => Some((2i64, 1i32)),
        '\u{5345}' => Some((3i64, 1i32)),
        '\u{534c}' => Some((4i64, 1i32)),
        '\u{53c1}' => Some((3i64, 0i32)),
        '\u{53c2}' => Some((3i64, 0i32)),
        '\u{53c3}' => Some((3i64, 0i32)),
        _ => None,
    }
}

pub open spec fn spec_unicode_numeric_part8(c: char) -> Option<(i64, i32)> {
    match c {
        '\u{53c4}' => Some((3i64, 0i32)),
        '\u{56db}' => Some((4i64, 0i32)),
        '\u{58f1}' => Some((1i64, 0i32)),
        '\u{58f9}' => Some((1i64, 0i32)),
        '\u{5e7a}' => Some((1i64, 0i32)),
        '\u{5efe}' => Some((9i64, 0i32)),
        '\u{5eff}' => Some((2i64, 1i32)),
        '\u{5f0c}' => Some((1i64, 0i32)),
        '\u{5f0d}' => Some((2i64, 0i32)),
        '\u{5f0e}' => Some((3i64, 0i32)),
        '\u{5f10}' => Some((2i64, 0i32)),
        '\u{62d0}' => Some((7i64, 0i32)),
        '\u{62fe}' => Some((1i64, 1i32)),
        '\u{634c}' => Some((8i64, 0i32)),
        '\u{67d2}' => Some((7i64, 0i32)),
        '\u{6d1e}' => Some((0i64, 0i32)),
        '\u{6f06}' => Some((7i64, 0i32)),
        '\u{7396}' => Some((9i64, 0i32)),
        '\u{767e}' => Some((1i64, 2i32)),
        '\u{7695}' => Some((2i64, 2i32)),
        '\u{79ed}' => Some((1i64, 9i32)),
        '\u{8086}' => Some((4i64, 0i32)),
        '\u{842c}' => Some((1i64, 4i32)),
        '\u{8cae}' => Some((2i64, 0i32)),
        '\u{8cb3}' => Some((2i64, 0i32)),
        '\u{8d30}' => Some((2i64, 0i32)),
        '\u{920e}' => Some((9i64, 0i32)),
        '\u{94a9}' => Some((9i64, 0i32)),
        '\u{9621}' => Some((1i64, 3i32)),
        '\u{9646}' => Some((6i64, 0i32)),
        '\u{964c}' => Some((1i64, 2i32)),
        '\u{9678}' => Some((6i64, 0i32)),
        '\u{96f6}' => Some((0i64, 0i32)),
        '\u{a6e6}' => Some((1i64, 0i32)),
        '\u{a6e7}' => Some((2i64, 0i32)),
        '\u{a6e8}' => Some((3i64, 0i32)),
        '\u{a6e9}' => Some((4i64, 0i32)),
        '\u{a6ea}' => Some((5i64, 0i32)),
        '\u{a6eb}' => Some((6i64, 0i32)),
        '\u{a6ec}' => Some((7i64, 0i32)),
        '\u{a6ed}' => Some((8i64, 0i32)),
        '\u{a6ee}' => Some((9i64, 0i32)),
        '\u{a6ef}' => Some((0i64, 0i32)),
        '\u{a830}' => Some((25i64, -2i32)),
        '\u{a831}' => Some((5i64, -1i32)),
        '\u{a832}' => Some((75i64, -2i32)),
        '\u{a833}' => Some((625i64, -4i32)),
        '\u{a834}' => Some((125i64, -3i32)),
        _ => None,
    }
}

pub open spec fn spec_unicode_numeric_part9(c: char) -> Option<(i64, i32)> {
    match c {
        '\u{a835}' => Some((1875i64, -4i32)),
        '\u{f96b}' => Some((3i64, 0i32)),
        '\u{f973}' => Some((1i64, 1i32)),
        '\u{f978}' => Some((2i64, 0i32)),
        '\u{f9b2}' => Some((0i64, 0i32)),
        '\u{f9d1}' => Some((6i64, 0i32)),
        '\u{f9d3}' => Some((6i64, 0i32)),
        '\u{f9fd}' => Some((1i64, 1i32)),
        '\u{10107}' => Some((1i64, 0i32)),
        '\u{10108}' => Some((2i64, 0i32)),
        '\u{10109}' => Some((3i64, 0i32)),
        '\u{1010a}' => Some((4i64, 0i32)),
        '\u{1010b}' => Some((5i64, 0i32)),
        '\u{1010c}' => Some((6i64, 0i32)),
        '\u{1010d}' => Some((7i64, 0i32)),
        '\u{1010e}' => Some((8i64, 0i32)),
        '\u{1010f}' => Some((9i64, 0i32)),
        '\u{10110}' => Some((1i64, 1i32)),
        '\u{10111}' => Some((2i64, 1i32)),
        '\u{10112}' => Some((3i64, 1i32)),
        '\u{10113}' => Some((4i64, 1i32)),
        '\u{10114}' => Some((5i64, 1i32)),
        '\u{10115}' => Some((6i64, 1i32)),
        '\u{10116}' => Some((7i64, 1i32)),
        '\u{10117}' => Some((8i64, 1i32)),
        '\u{10118}' => Some((9i64, 1i32)),
        '\u{10119}' => Some((1i64, 2i32)),
        '\u{1011a}' => Some((2i64, 2i32)),
        '\u{1011b}' => Some((3i64, 2i32)),
        '\u{1011c}' => Some((4i64, 2i32)),
        '\u{1011d}' => Some((5i64, 2i32)),
        '\u{1011e}' => Some((6i64, 2i32)),
        '\u{1011f}' => Some((7i64, 2i32)),
        '\u{10120}' => Some((8i64, 2i32)),
        '\u{10121}' => Some((9i64, 2i32)),
        '\u{10122}' => Some((1i64, 3i32)),
        '\u{10123}' => Some((2i64, 3i32)),
        '\u{10124}' => Some((3i64, 3i32)),
        '\u{10125}' => Some((4i64, 3i32)),
        '\u{10126}' => Some((5i64, 3i32)),
        '\u{10127}' => Some((6i64, 3i32)),
        '\u{10128}' => Some((7i64, 3i32)),
        '\u{10129}' => Some((8i64, 3i32)),
        '\u{1012a}' => Some((9i64, 3i32)),
        '\u{1012b}' => Some((1i64, 4i32)),
        '\u{1012c}' => Some((2i64, 4i32)),
        '\u{1012d}' => Some((3i64, 4i32)),
        '\u{1012e}' => Some((4i64, 4i32)),
        _ => None,
    }
}

pub open spec fn spec_unicode_numeric_part10(c: char) -> Option<(i64, i32)> {
    match c {
        '\u{1012f}' => Some((5i64, 4i32)),
        '\u{10130}' => Some((6i64, 4i32)),
        '\u{10131}' => Some((7i64, 4i32)),
        '\u{10132}' => Some((8i64, 4i32)),
        '\u{10133}' => Some((9i64, 4i32)),
        '\u{10140}' => Some((25i64, -2i32)),
        '\u{10141}' => Some((5i64, -1i32)),
        '\u{10142}' => Some((1i64, 0i32)),
        '\u{10143}' => Some((5i64, 0i32)),
        '\u{10144}' => Some((5i64, 1i32)),
        '\u{10145}' => Some((5i64, 2i32)),
        '\u{10146}' => Some((5i64, 3i32)),
        '\u{10147}' => Some((5i64, 4i32)),
        '\u{10148}' => Some((5i64, 0i32)),
        '\u{10149}' => Some((1i64, 1i32)),
        '\u{1014a}' => Some((5i64, 1i32)),
        '\u{1014b}' => Some((1i64, 2i32)),
        '\u{1014c}' => Some((5i64, 2i32)),
        '\u{1014d}' => Some((1i64, 3i32)),
        '\u{1014e}' => Some((5i64, 3i32)),
        '\u{1014f}' => Some((5i64, 0i32)),
        '\u{10150}' => Some((1i64, 1i32)),
        '\u{10151}' => Some((5i64, 1i32)),
        '\u{10152}' => Some((1i64, 2i32)),
        '\u{10153}' => Some((5i64, 2i32)),
        '\u{10154}' => Some((1i64, 3i32)),
        '\u{10155}' => Some((1i64, 4i32)),
        '\u{10156}' => Some((5i64, 4i32)),
        '\u{10157}' => Some((1i64, 1i32)),
        '\u{10158}' => Some((1i64, 0i32)),
        '\u{10159}' => Some((1i64, 0i32)),
        '\u{1015a}' => Some((1i64, 0i32)),
        '\u{1015b}' => Some((2i64, 0i32)),
        '\u{1015c}' => Some((2i64, 0i32)),
        '\u{1015d}' => Some((2i64, 0i32)),
        '\u{1015e}' => Some((2i64, 0i32)),
        '\u{1015f}' => Some((5i64, 0i32)),
        '\u{10160}' => Some((1i64, 1i32)),
        '\u{10161}' => Some((1i64, 1i32)),
        '\u{10162}' => Some((1i64, 1i32)),
        '\u{10163}' => Some((1i64, 1i32)),
        '\u{10164}' => Some((1i64, 1i32)),
        '\u{10165}' => Some((3i64, 1i32)),
        '\u{10166}' => Some((5i64, 1i32)),
        '\u{10167}' => Some((5i64, 1i32)),
        '\u{10168}' => Some((5i64, 1i32)),
        '\u{10169}' => Some((5i64, 1i32)),
        '\u{1016a}' => Some((1i64, 2i32)),
        _ => None,
    }
}

pub open spec fn spec_unicode_numeric_part11(c: char) -> Option<(i64, i32)> {
    match c {
        '\u{1016b}' => Some((3i64, 2i32)),
        '\u{1016c}' => Some((5i64, 2i32)),
        '\u{1016d}' => Some((5i64, 2i32)),
        '\u{1016e}' => Some((5i64, 2i32)),
        '\u{1016f}' => Some((5i64, 2i32)),
        '\u{10170}' => Some((5i64, 2i32)),
        '\u{10171}' => Some((1i64, 3i32)),
        '\u{10172}' => Some((5i64, 3i32)),
        '\u{10173}' => Some((5i64, 0i32)),
        '\u{10174}' => Some((5i64, 1i32)),
        '\u{10175}' => Some((5i64, -1i32)),
        '\u{10176}' => Some((5i64, -1i32)),
        '\u{10177}' => Some((6666666666666666i64, -16i32)),
        '\u{10178}' => Some((75i64, -2i32)),
        '\u{1018a}' => Some((0i64, 0i32)),
        '\u{1018b}' => Some((25i64, -2i32)),
        '\u{102e1}' => Some((1i64, 0i32)),
        '\u{102e2}' => Some((2i64, 0i32)),
        '\u{102e3}' => Some((3i64, 0i32)),
        '\u{102e4}' => Some((4i64, 0i32)),
        '\u{102e5}' => Some((5i64, 0i32)),
        '\u{102e6}' => Some((6i64, 0i32)),
        '\u{102e7}' => Some((7i64, 0i32)),
        '\u{102e8}' => Some((8i64, 0i32)),
        '\u{102e9}' => Some((9i64, 0i32)),
        '\u{102ea}' => Some((1i64, 1i32)),
        '\u{102eb}' => Some((2i64, 1i32)),
        '\u{102ec}' => Some((3i64, 1i32)),
        '\u{102ed}' => Some((4i64, 1i32)),
        '\u{102ee}' => Some((5i64, 1i32)),
        '\u{102ef}' => Some((6i64, 1i32)),
        '\u{102f0}' => Some((7i64, 1i32)),
        '\u{102f1}' => Some((8i64, 1i32)),
        '\u{102f2}' => Some((9i64, 1i32)),
        '\u{102f3}' => Some((1i64, 2i32)),
        '\u{102f4}' => Some((2i64, 2i32)),
        '\u{102f5}' => Some((3i64, 2i32)),
        '\u{102f6}' => Some((4i64, 2i32)),
        '\u{102f7}' => Some((5i64, 2i32)),
        '\u{102f8}' => Some((6i64, 2i32)),
        '\u{102f9}' => Some((7i64, 2i32)),
        '\u{102fa}' => Some((8i64, 2i32)),
        '\u{102fb}' => Some((9i64, 2i32)),
        '\u{10320}' => Some((1i64, 0i32)),
        '\u{10321}' => Some((5i64, 0i32)),
        '\u{10322}' => Some((1i64, 1i32)),
        '\u{10323}' => Some((5i64, 1i32)),
        '\u{10341}' => Some((9i64, 1i32)),
        _ => None,
    }
}

pub open spec fn spec_unicode_numeric_part12(c: char) -> Option<(i64, i32)> {
    match c {
        '\u{1034a}' => Some((9i64, 2i32)),
        '\u{103d1}' => Some((1i64, 0i32)),
        '\u{103d2}' => Some((2i64, 0i32)),
        '\u{103d3}' => Some((1i64, 1i32)),
        '\u{103d4}' => Some((2i64, 1i32)),
        '\u{103d5}' => Some((1i64, 2i32)),
        '\u{10858}' => Some((1i64, 0i32)),
        '\u{10859}' => Some((2i64, 0i32)),
        '\u{1085a}' => Some((3i64, 0i32)),
        '\u{1085b}' => Some((1i64, 1i32)),
        '\u{1085c}' => Some((2i64, 1i32)),
        '\u{1085d}' => Some((1i64, 2i32)),
        '\u{1085e}' => Some((1i64, 3i32)),
        '\u{1085f}' => Some((1i64, 4i32)),
        '\u{10879}' => Some((1i64, 0i32)),
        '\u{1087a}' => Some((2i64, 0i32)),
        '\u{1087b}' => Some((3i64, 0i32)),
        '\u{1087c}' => Some((4i64, 0i32)),
        '\u{1087d}' => Some((5i64, 0i32)),
        '\u{1087e}' => Some((1i64, 1i32)),
        '\u{1087f}' => Some((2i64, 1i32)),
        '\u{108a7}' => Some((1i64, 0i32)),
        '\u{108a8}' => Some((2i64, 0i32)),
        '\u{108a9}' => Some((3i64, 0i32)),
        '\u{108aa}' => Some((4i64, 0i32)),
        '\u{108ab}' => Some((4i64, 0i32)),
        '\u{108ac}' => Some((5i64, 0i32)),
        '\u{108ad}' => Some((1i64, 1i32)),
        '\u{108ae}' => Some((2i64, 1i32)),
        '\u{108af}' => Some((1i64, 2i32)),
        '\u{108fb}' => Some((1i64, 0i32)),
        '\u{108fc}' => Some((5i64, 0i32)),
        '\u{108fd}' => Some((1i64, 1i32)),
        '\u{108fe}' => Some((2i64, 1i32)),
        '\u{108ff}' => Some((1i64, 2i32)),
        '\u{10916}' => Some((1i64, 0i32)),
        '\u{10917}' => Some((1i64, 1i32)),
        '\u{10918}' => Some((2i64, 1i32)),
        '\u{10919}' => Some((1i64, 2i32)),
        '\u{1091a}' => Some((2i64, 0i32)),
        '\u{1091b}' => Some((3i64, 0i32)),
        '\u{109bc}' => Some((9166666666666666i64, -16i32)),
        '\u{109bd}' => Some((5i64, -1i32)),
        '\u{109c0}' => Some((1i64, 0i32)),
        '\u{109c1}' => Some((2i64, 0i32)),
        '\u{109c2}' => Some((3i64, 0i32)),
        '\u{109c3}' => Some((4i64, 0i32)),
        '\u{109c4}' => Some((5i64, 0i32)),
        _ => None,
    }
}

pub open spec fn spec_unicode_numeric_part13(c: char) -> Option<(i64, i32)> {
    match c {
        '\u{109c5}' => Some((6i64, 0i32)),
        '\u{109c6}' => Some((7i64, 0i32)),
        '\u{109c7}' => Some((8i64, 0i32)),
        '\u{109c8}' => Some((9i64, 0i32)),
        '\u{109c9}' => Some((1i64, 1i32)),
        '\u{109ca}' => Some((2i64, 1i32)),
        '\u{109cb}' => Some((3i64, 1i32)),
        '\u{109cc}' => Some((4i64, 1i32)),
        '\u{109cd}' => Some((5i64, 1i32)),
        '\u{109ce}' => Some((6i64, 1i32)),
        '\u{109cf}' => Some((7i64, 1i32)),
        '\u{109d2}' => Some((1i64, 2i32)),
        '\u{109d3}' => Some((2i64, 2i32)),
        '\u{109d4}' => Some((3i64, 2i32)),
        '\u{109d5}' => Some((4i64, 2i32)),
        '\u{109d6}' => Some((5i64, 2i32)),
        '\u{109d7}' => Some((6i64, 2i32)),
        '\u{109d8}' => Some((7i64, 2i32)),
        '\u{109d9}' => Some((8i64, 2i32)),
        '\u{109da}' => Some((9i64, 2i32)),
        '\u{109db}' => Some((1i64, 3i32)),
        '\u{109dc}' => Some((2i64, 3i32)),
        '\u{109dd}' => Some((3i64, 3i32)),
        '\u{109de}' => Some((4i64, 3i32)),
        '\u{109df}' => Some((5i64, 3i32)),
        '\u{109e0}' => Some((6i64, 3i32)),
        '\u{109e1}' => Some((7i64, 3i32)),
        '\u{109e2}' => Some((8i64, 3i32)),
        '\u{109e3}' => Some((9i64, 3i32)),
        '\u{109e4}' => Some((1i64, 4i32)),
        '\u{109e5}' => Some((2i64, 4i32)),
        '\u{109e6}' => Some((3i64, 4i32)),
        '\u{109e7}' => Some((4i64, 4i32)),
        '\u{109e8}' => Some((5i64, 4i32)),
        '\u{109e9}' => Some((6i64, 4i32)),
        '\u{109ea}' => Some((7i64, 4i32)),
        '\u{109eb}' => Some((8i64, 4i32)),
        '\u{109ec}' => Some((9i64, 4i32)),
        '\u{109ed}' => Some((1i64, 5i32)),
        '\u{109ee}' => Some((2i64, 5i32)),
        '\u{109ef}' => Some((3i64, 5i32)),
        '\u{109f0}' => Some((4i64, 5i32)),
        '\u{109f1}' => Some((5i64, 5i32)),
        '\u{109f2}' => Some((6i64, 5i32)),
        '\u{109f3}' => Some((7i64, 5i32)),
        '\u{109f4}' => Some((8i64, 5i32)),
        '\u{109f5}' => Some((9i64, 5i32)),
        '\u{109f6}' => Some((8333333333333333i64, -17i32)),
        _ => None,
    }
}

pub open spec fn spec_unicode_numeric_part14(c: char) -> Option<(i64, i32)> {
    match c {
        '\u{109f7}' => Some((16666666666666666i64, -17i32)),
        '\u{109f8}' => Some((25i64, -2i32)),
        '\u{109f9}' => Some((3333333333333333i64, -16i32)),
        '\u{109fa}' => Some((4166666666666667i64, -16i32)),
        '\u{109fb}' => Some((5i64, -1i32)),
        '\u{109fc}' => Some((5833333333333334i64, -16i32)),
        '\u{109fd}' => Some((6666666666666666i64, -16i32)),
        '\u{109fe}' => Some((75i64, -2i32)),
        '\u{109ff}' => Some((8333333333333334i64, -16i32)),
        '\u{10a40}' => Some((1i64, 0i32)),
        '\u{10a41}' => Some((2i64, 0i32)),
        '\u{10a42}' => Some((3i64, 0i32)),
        '\u{10a43}' => Some((4i64, 0i32)),
        '\u{10a44}' => Some((1i64, 1i32)),
        '\u{10a45}' => Some((2i64, 1i32)),
        '\u{10a46}' => Some((1i64, 2i32)),
        '\u{10a47}' => Some((1i64, 3i32)),
        '\u{10a48}' => Some((5i64, -1i32)),
        '\u{10a7d}' => Some((1i64, 0i32)),
        '\u{10a7e}' => Some((5i64, 1i32)),
        '\u{10a9d}' => Some((1i64, 0i32)),
        '\u{10a9e}' => Some((1i64, 1i32)),
        '\u{10a9f}' => Some((2i64, 1i32)),
        '\u{10aeb}' => Some((1i64, 0i32)),
        '\u{10aec}' => Some((5i64, 0i32)),
        '\u{10aed}' => Some((1i64, 1i32)),
        '\u{10aee}' => Some((2i64, 1i32)),
        '\u{10aef}' => Some((1i64, 2i32)),
        '\u{10b58}' => Some((1i64, 0i32)),
        '\u{10b59}' => Some((2i64, 0i32)),
        '\u{10b5a}' => Some((3i64, 0i32)),
        '\u{10b5b}' => Some((4i64, 0i32)),
        '\u{10b5c}' => Some((1i64, 1i32)),
        '\u{10b5d}' => Some((2i64, 1i32)),
        '\u{10b5e}' => Some((1i64, 2i32)),
        '\u{10b5f}' => Some((1i64, 3i32)),
        '\u{10b78}' => Some((1i64, 0i32)),
        '\u{10b79}' => Some((2i64, 0i32)),
        '\u{10b7a}' => Some((3i64, 0i32)),
        '\u{10b7b}' => Some((4i64, 0i32)),
        '\u{10b7c}' => Some((1i64, 1i32)),
        '\u{10b7d}' => Some((2i64, 1i32)),
        '\u{10b7e}' => Some((1i64, 2i32)),
        '\u{10b7f}' => Some((1i64, 3i32)),
        '\u{10ba9}' => Some((1i64, 0i32)),
        '\u{10baa}' => Some((2i64, 0i32)),
        '\u{10bab}' => Some((3i64, 0i32)),
        '\u{10bac}' => Some((4i64, 0i32)),
        _ => None,
    }
}

pub open spec fn spec_unicode_numeric_part15(c: char) -> Option<(i64, i32)> {
    match c {
        '\u{10bad}' => Some((1i64, 1i32)),
        '\u{10bae}' => Some((2i64, 1i32)),
        '\u{10baf}' => Some((1i64, 2i32)),
        '\u{10cfa}' => Some((1i64, 0i32)),
        '\u{10cfb}' => Some((5i64, 0i32)),
        '\u{10cfc}' => Some((1i64, 1i32)),
        '\u{10cfd}' => Some((5i64, 1i32)),
        '\u{10cfe}' => Some((1i64, 2i32)),
        '\u{10cff}' => Some((1i64, 3i32)),
        '\u{10e60}' => Some((1i64, 0i32)),
        '\u{10e61}' => Some((2i64, 0i32)),
        '\u{10e62}' => Some((3i64, 0i32)),
        '\u{10e63}' => Some((4i64, 0i32)),
        '\u{10e64}' => Some((5i64, 0i32)),
        '\u{10e65}' => Some((6i64, 0i32)),
        '\u{10e66}' => Some((7i64, 0i32)),
        '\u{10e67}' => Some((8i64, 0i32)),
        '\u{10e68}' => Some((9i64, 0i32)),
        '\u{10e69}' => Some((1i64, 1i32)),
        '\u{10e6a}' => Some((2i64, 1i32)),
        '\u{10e6b}' => Some((3i64, 1i32)),
        '\u{10e6c}' => Some((4i64, 1i32)),
        '\u{10e6d}' => Some((5i64, 1i32)),
        '\u{10e6e}' => Some((6i64, 1i32)),
        '\u{10e6f}' => Some((7i64, 1i32)),
        '\u{10e70}' => Some((8i64, 1i32)),
        '\u{10e71}' => Some((9i64, 1i32)),
        '\u{10e72}' => Some((1i64, 2i32)),
        '\u{10e73}' => Some((2i64, 2i32)),
        '\u{10e74}' => Some((3i64, 2i32)),
        '\u{10e75}' => Some((4i64, 2i32)),
        '\u{10e76}' => Some((5i64, 2i32)),
        '\u{10e77}' => Some((6i64, 2i32)),
        '\u{10e78}' => Some((7i64, 2i32)),
        '\u{10e79}' => Some((8i64, 2i32)),
        '\u{10e7a}' => Some((9i64, 2i32)),
        '\u{10e7b}' => Some((5i64, -1i32)),
        '\u{10e7c}' => Some((25i64, -2i32)),
        '\u{10e7d}' => Some((3333333333333333i64, -16i32)),
        '\u{10e7e}' => Some((6666666666666666i64, -16i32)),
        '\u{10f1d}' => Some((1i64, 0i32)),
        '\u{10f1e}' => Some((2i64, 0i32)),
        '\u{10f1f}' => Some((3i64, 0i32)),
        '\u{10f20}' => Some((4i64, 0i32)),
        '\u{10f21}' => Some((5i64, 0i32)),
        '\u{10f22}' => Some((1i64, 1i32)),
        '\u{10f23}' => Some((2i64, 1i32)),
        '\u{10f24}' => Some((3i64, 1i32)),
        _ => None,
    }
}

pub open spec fn spec_unicode_numeric_part16(c: char) -> Option<(i64, i32)> {
    match c {
        '\u{10f25}' => Some((1i64, 2i32)),
        '\u{10f26}' => Some((5i64, -1i32)),
        '\u{10f51}' => Some((1i64, 0i32)),
        '\u{10f52}' => Some((1i64, 1i32)),
        '\u{10f53}' => Some((2i64, 1i32)),
        '\u{10f54}' => Some((1i64, 2i32)),
        '\u{10fc5}' => Some((1i64, 0i32)),
        '\u{10fc6}' => Some((2i64, 0i32)),
        '\u{10fc7}' => Some((3i64, 0i32)),
        '\u{10fc8}' => Some((4i64, 0i32)),
        '\u{10fc9}' => Some((1i64, 1i32)),
        '\u{10fca}' => Some((2i64, 1i32)),
        '\u{10fcb}' => Some((1i64, 2i32)),
        '\u{11052}' => Some((1i64, 0i32)),
        '\u{11053}' => Some((2i64, 0i32)),
        '\u{11054}' => Some((3i64, 0i32)),
        '\u{11055}' => Some((4i64, 0i32)),
        '\u{11056}' => Some((5i64, 0i32)),
        '\u{11057}' => Some((6i64, 0i32)),
        '\u{11058}' => Some((7i64, 0i32)),
        '\u{11059}' => Some((8i64, 0i32)),
        '\u{1105a}' => Some((9i64, 0i32)),
        '\u{1105b}' => Some((1i64, 1i32)),
        '\u{1105c}' => Some((2i64, 1i32)),
        '\u{1105d}' => Some((3i64, 1i32)),
        '\u{1105e}' => Some((4i64, 1i32)),
        '\u{1105f}' => Some((5i64, 1i32)),
        '\u{11060}' => Some((6i64, 1i32)),
        '\u{11061}' => Some((7i64, 1i32)),
        '\u{11062}' => Some((8i64, 1i32)),
        '\u{11063}' => Some((9i64, 1i32)),
        '\u{11064}' => Some((1i64, 2i32)),
        '\u{11065}' => Some((1i64, 3i32)),
        '\u{111e1}' => Some((1i64, 0i32)),
        '\u{111e2}' => Some((2i64, 0i32)),
        '\u{111e3}' => Some((3i64, 0i32)),
        '\u{111e4}' => Some((4i64, 0i32)),
        '\u{111e5}' => Some((5i64, 0i32)),
        '\u{111e6}' => Some((6i64, 0i32)),
        '\u{111e7}' => Some((7i64, 0i32)),
        '\u{111e8}' => Some((8i64, 0i32)),
        '\u{111e9}' => Some((9i64, 0i32)),
        '\u{111ea}' => Some((1i64, 1i32)),
        '\u{111eb}' => Some((2i64, 1i32)),
        '\u{111ec}' => Some((3i64, 1i32)),
        '\u{111ed}' => Some((4i64, 1i32)),
        '\u{111ee}' => Some((5i64, 1i32)),
        '\u{111ef}' => Some((6i64, 1i32)),
        _ => None,
    }
}

pub open spec fn spec_unicode_numeric_part17(c: char) -> Option<(i64, i32)> {
    match c {
        '\u{111f0}' => Some((7i64, 1i32)),
        '\u{111f1}' => Some((8i64, 1i32)),
        '\u{111f2}' => Some((9i64, 1i32)),
        '\u{111f3}' => Some((1i64, 2i32)),
        '\u{111f4}' => Some((1i64, 3i32)),
        '\u{1173a}' => Some((1i64, 1i32)),
        '\u{1173b}' => Some((2i64, 1i32)),
        '\u{118ea}' => Some((1i64, 1i32)),
        '\u{118eb}' => Some((2i64, 1i32)),
        '\u{118ec}' => Some((3i64, 1i32)),
        '\u{118ed}' => Some((4i64, 1i32)),
        '\u{118ee}' => Some((5i64, 1i32)),
        '\u{118ef}' => Some((6i64, 1i32)),
        '\u{118f0}' => Some((7i64, 1i32)),
        '\u{118f1}' => Some((8i64, 1i32)),
        '\u{118f2}' => Some((9i64, 1i32)),
        '\u{11c5a}' => Some((1i64, 0i32)),
        '\u{11c5b}' => Some((2i64, 0i32)),
        '\u{11c5c}' => Some((3i64, 0i32)),
        '\u{11c5d}' => Some((4i64, 0i32)),
        '\u{11c5e}' => Some((5i64, 0i32)),
        '\u{11c5f}' => Some((6i64, 0i32)),
        '\u{11c60}' => Some((7i64, 0i32)),
        '\u{11c61}' => Some((8i64, 0i32)),
        '\u{11c62}' => Some((9i64, 0i32)),
        '\u{11c63}' => Some((1i64, 1i32)),
        '\u{11c64}' => Some((2i64, 1i32)),
        '\u{11c65}' => Some((3i64, 1i32)),
        '\u{11c66}' => Some((4i64, 1i32)),
        '\u{11c67}' => Some((5i64, 1i32)),
        '\u{11c68}' => Some((6i64, 1i32)),
        '\u{11c69}' => Some((7i64, 1i32)),
        '\u{11c6a}' => Some((8i64, 1i32)),
        '\u{11c6b}' => Some((9i64, 1i32)),
        '\u{11c6c}' => Some((1i64, 2i32)),
        '\u{11fc0}' => Some((3125i64, -6i32)),
        '\u{11fc1}' => Some((625i64, -5i32)),
        '\u{11fc2}' => Some((125i64, -4i32)),
        '\u{11fc3}' => Some((15625i64, -6i32)),
        '\u{11fc4}' => Some((25i64, -3i32)),
        '\u{11fc5}' => Some((3125i64, -5i32)),
        '\u{11fc6}' => Some((375i64, -4i32)),
        '\u{11fc7}' => Some((46875i64, -6i32)),
        '\u{11fc8}' => Some((5i64, -2i32)),
        '\u{11fc9}' => Some((625i64, -4i32)),
        '\u{11fca}' => Some((625i64, -4i32)),
        '\u{11fcb}' => Some((1i64, -1i32)),
        '\u{11fcc}' => Some((125i64, -3i32)),
        _ => None,
    }
}

pub open spec fn spec_unicode_numeric_part18(c: char) -> Option<(i64, i32)> {
    match c {
        '\u{11fcd}' => Some((15i64, -2i32)),
        '\u{11fce}' => Some((1875i64, -4i32)),
        '\u{11fcf}' => Some((2i64, -1i32)),
        '\u{11fd0}' => Some((25i64, -2i32)),
        '\u{11fd1}' => Some((5i64, -1i32)),
        '\u{11fd2}' => Some((5i64, -1i32)),
        '\u{11fd3}' => Some((75i64, -2i32)),
        '\u{11fd4}' => Some((3125i64, -6i32)),
        '\u{12400}' => Some((2i64, 0i32)),
        '\u{12401}' => Some((3i64, 0i32)),
        '\u{12402}' => Some((4i64, 0i32)),
        '\u{12403}' => Some((5i64, 0i32)),
        '\u{12404}' => Some((6i64, 0i32)),
        '\u{12405}' => Some((7i64, 0i32)),
        '\u{12406}' => Some((8i64, 0i32)),
        '\u{12407}' => Some((9i64, 0i32)),
        '\u{12408}' => Some((3i64, 0i32)),
        '\u{12409}' => Some((4i64, 0i32)),
        '\u{1240a}' => Some((5i64, 0i32)),
        '\u{1240b}' => Some((6i64, 0i32)),
        '\u{1240c}' => Some((7i64, 0i32)),
        '\u{1240d}' => Some((8i64, 0i32)),
        '\u{1240e}' => Some((9i64, 0i32)),
        '\u{1240f}' => Some((4i64, 0i32)),
        '\u{12410}' => Some((5i64, 0i32)),
        '\u{12411}' => Some((6i64, 0i32)),
        '\u{12412}' => Some((7i64, 0i32)),
        '\u{12413}' => Some((8i64, 0i32)),
        '\u{12414}' => Some((9i64, 0i32)),
        '\u{12415}' => Some((1i64, 0i32)),
        '\u{12416}' => Some((2i64, 0i32)),
        '\u{12417}' => Some((3i64, 0i32)),
        '\u{12418}' => Some((4i64, 0i32)),
        '\u{12419}' => Some((5i64, 0i32)),
        '\u{1241a}' => Some((6i64, 0i32)),
        '\u{1241b}' => Some((7i64, 0i32)),
        '\u{1241c}' => Some((8i64, 0i32)),
        '\u{1241d}' => Some((9i64, 0i32)),
        '\u{1241e}' => Some((1i64, 0i32)),
        '\u{1241f}' => Some((2i64, 0i32)),
        '\u{12420}' => Some((3i64, 0i32)),
        '\u{12421}' => Some((4i64, 0i32)),
        '\u{12422}' => Some((5i64, 0i32)),
        '\u{12423}' => Some((2i64, 0i32)),
        '\u{12424}' => Some((3i64, 0i32)),
        '\u{12425}' => Some((3i64, 0i32)),
        '\u{12426}' => Some((4i64, 0i32)),
        '\u{12427}' => Some((5i64, 0i32)),
        _ => None,
    }
}

pub open spec fn spec_unicode_numeric_part19(c: char) -> Option<(i64, i32)> {
    match c {
        '\u{12428}' => Some((6i64, 0i32)),
        '\u{12429}' => Some((7i64, 0i32)),
        '\u{1242a}' => Some((8i64, 0i32)),
        '\u{1242b}' => Some((9i64, 0i32)),
        '\u{1242c}' => Some((1i64, 0i32)),
        '\u{1242d}' => Some((2i64, 0i32)),
        '\u{1242e}' => Some((3i64, 0i32)),
        '\u{1242f}' => Some((3i64, 0i32)),
        '\u{12430}' => Some((4i64, 0i32)),
        '\u{12431}' => Some((5i64, 0i32)),
        '\u{12432}' => Some((216i64, 3i32)),
        '\u{12433}' => Some((432i64, 3i32)),
        '\u{12434}' => Some((1i64, 0i32)),
        '\u{12435}' => Some((2i64, 0i32)),
        '\u{12436}' => Some((3i64, 0i32)),
        '\u{12437}' => Some((3i64, 0i32)),
        '\u{12438}' => Some((4i64, 0i32)),
        '\u{12439}' => Some((5i64, 0i32)),
        '\u{1243a}' => Some((3i64, 0i32)),
        '\u{1243b}' => Some((3i64, 0i32)),
        '\u{1243c}' => Some((4i64, 0i32)),
        '\u{1243d}' => Some((4i64, 0i32)),
        '\u{1243e}' => Some((4i64, 0i32)),
        '\u{1243f}' => Some((4i64, 0i32)),
        '\u{12440}' => Some((6i64, 0i32)),
        '\u{12441}' => Some((7i64, 0i32)),
        '\u{12442}' => Some((7i64, 0i32)),
        '\u{12443}' => Some((7i64, 0i32)),
        '\u{12444}' => Some((8i64, 0i32)),
        '\u{12445}' => Some((8i64, 0i32)),
        '\u{12446}' => Some((9i64, 0i32)),
        '\u{12447}' => Some((9i64, 0i32)),
        '\u{12448}' => Some((9i64, 0i32)),
        '\u{12449}' => Some((9i64, 0i32)),
        '\u{1244a}' => Some((2i64, 0i32)),
        '\u{1244b}' => Some((3i64, 0i32)),
        '\u{1244c}' => Some((4i64, 0i32)),
        '\u{1244d}' => Some((5i64, 0i32)),
        '\u{1244e}' => Some((6i64, 0i32)),
        '\u{1244f}' => Some((1i64, 0i32)),
        '\u{12450}' => Some((2i64, 0i32)),
        '\u{12451}' => Some((3i64, 0i32)),
        '\u{12452}' => Some((4i64, 0i32)),
        '\u{12453}' => Some((4i64, 0i32)),
        '\u{12454}' => Some((5i64, 0i32)),
        '\u{12455}' => Some((5i64, 0i32)),
        '\u{12456}' => Some((2i64, 0i32)),
        '\u{12457}' => Some((3i64, 0i32)),
        _ => None,
    }
}

pub open spec fn spec_unicode_numeric_part20(c: char) -> Option<(i64, i32)> {
    match c {
        '\u{12458}' => Some((1i64, 0i32)),
        '\u{12459}' => Some((2i64, 0i32)),
        '\u{1245a}' => Some((3333333333333333i64, -16i32)),
        '\u{1245b}' => Some((6666666666666666i64, -16i32)),
        '\u{1245c}' => Some((8333333333333334i64, -16i32)),
        '\u{1245d}' => Some((3333333333333333i64, -16i32)),
        '\u{1245e}' => Some((6666666666666666i64, -16i32)),
        '\u{1245f}' => Some((125i64, -3i32)),
        '\u{12460}' => Some((25i64, -2i32)),
        '\u{12461}' => Some((16666666666666666i64, -17i32)),
        '\u{12462}' => Some((25i64, -2i32)),
        '\u{12463}' => Some((25i64, -2i32)),
        '\u{12464}' => Some((5i64, -1i32)),
        '\u{12465}' => Some((3333333333333333i64, -16i32)),
        '\u{12466}' => Some((6666666666666666i64, -16i32)),
        '\u{12467}' => Some((4i64, 1i32)),
        '\u{12468}' => Some((5i64, 1i32)),
        '\u{12469}' => Some((4i64, 0i32)),
        '\u{1246a}' => Some((5i64, 0i32)),
        '\u{1246b}' => Some((6i64, 0i32)),
        '\u{1246c}' => Some((7i64, 0i32)),
        '\u{1246d}' => Some((8i64, 0i32)),
        '\u{1246e}' => Some((9i64, 0i32)),
        '\u{16b5b}' => Some((1i64, 1i32)),
        '\u{16b5c}' => Some((1i64, 2i32)),
        '\u{16b5d}' => Some((1i64, 4i32)),
        '\u{16b5e}' => Some((1i64, 6i32)),
        '\u{16b5f}' => Some((1i64, 8i32)),
        '\u{16b60}' => Some((1i64, 10i32)),
        '\u{16b61}' => Some((1i64, 12i32)),
        '\u{16e80}' => Some((0i64, 0i32)),
        '\u{16e81}' => Some((1i64, 0i32)),
        '\u{16e82}' => Some((2i64, 0i32)),
        '\u{16e83}' => Some((3i64, 0i32)),
        '\u{16e84}' => Some((4i64, 0i32)),
        '\u{16e85}' => Some((5i64, 0i32)),
        '\u{16e86}' => Some((6i64, 0i32)),
        '\u{16e87}' => Some((7i64, 0i32)),
        '\u{16e88}' => Some((8i64, 0i32)),
        '\u{16e89}' => Some((9i64, 0i32)),
        '\u{16e8a}' => Some((1i64, 1i32)),
        '\u{16e8b}' => Some((11i64, 0i32)),
        '\u{16e8c}' => Some((12i64, 0i32)),
        '\u{16e8d}' => Some((13i64, 0i32)),
        '\u{16e8e}' => Some((14i64, 0i32)),
        '\u{16e8f}' => Some((15i64, 0i32)),
        '\u{16e90}' => Some((16i64, 0i32)),
        '\u{16e91}' => Some((17i64, 0i32)),
        _ => None,
    }
}

pub open spec fn spec_unicode_numeric_part21(c: char) -> Option<(i64, i32)> {
    match c {
        '\u{16e92}' => Some((18i64, 0i32)),
        '\u{16e93}' => Some((19i64, 0i32)),
        '\u{16e94}' => Some((1i64, 0i32)),
        '\u{16e95}' => Some((2i64, 0i32)),
        '\u{16e96}' => Some((3i64, 0i32)),
        '\u{1d2c0}' => Some((0i64, 0i32)),
        '\u{1d2c1}' => Some((1i64, 0i32)),
        '\u{1d2c2}' => Some((2i64, 0i32)),
        '\u{1d2c3}' => Some((3i64, 0i32)),
        '\u{1d2c4}' => Some((4i64, 0i32)),
        '\u{1d2c5}' => Some((5i64, 0i32)),
        '\u{1d2c6}' => Some((6i64, 0i32)),
        '\u{1d2c7}' => Some((7i64, 0i32)),
        '\u{1d2c8}' => Some((8i64, 0i32)),
        '\u{1d2c9}' => Some((9i64, 0i32)),
        '\u{1d2ca}' => Some((1i64, 1i32)),
        '\u{1d2cb}' => Some((11i64, 0i32)),
        '\u{1d2cc}' => Some((12i64, 0i32)),
        '\u{1d2cd}' => Some((13i64, 0i32)),
        '\u{1d2ce}' => Some((14i64, 0i32)),
        '\u{1d2cf}' => Some((15i64, 0i32)),
        '\u{1d2d0}' => Some((16i64, 0i32)),
        '\u{1d2d1}' => Some((17i64, 0i32)),
        '\u{1d2d2}' => Some((18i64, 0i32)),
        '\u{1d2d3}' => Some((19i64, 0i32)),
        '\u{1d2e0}' => Some((0i64, 0i32)),
        '\u{1d2e1}' => Some((1i64, 0i32)),
        '\u{1d2e2}' => Some((2i64, 0i32)),
        '\u{1d2e3}' => Some((3i64, 0i32)),
        '\u{1d2e4}' => Some((4i64, 0i32)),
        '\u{1d2e5}' => Some((5i64, 0i32)),
        '\u{1d2e6}' => Some((6i64, 0i32)),
        '\u{1d2e7}' => Some((7i64, 0i32)),
        '\u{1d2e8}' => Some((8i64, 0i32)),
        '\u{1d2e9}' => Some((9i64, 0i32)),
        '\u{1d2ea}' => Some((1i64, 1i32)),
        '\u{1d2eb}' => Some((11i64, 0i32)),
        '\u{1d2ec}' => Some((12i64, 0i32)),
        '\u{1d2ed}' => Some((13i64, 0i32)),
        '\u{1d2ee}' => Some((14i64, 0i32)),
        '\u{1d2ef}' => Some((15i64, 0i32)),
        '\u{1d2f0}' => Some((16i64, 0i32)),
        '\u{1d2f1}' => Some((17i64, 0i32)),
        '\u{1d2f2}' => Some((18i64, 0i32)),
        '\u{1d2f3}' => Some((19i64, 0i32)),
        '\u{1d360}' => Some((1i64, 0i32)),
        '\u{1d361}' => Some((2i64, 0i32)),
        '\u{1d362}' => Some((3i64, 0i32)),
        _ => None,
    }
}

pub open spec fn spec_unicode_numeric_part22(c: char) -> Option<(i64, i32)> {
    match c {
        '\u{1d363}' => Some((4i64, 0i32)),
        '\u{1d364}' => Some((5i64, 0i32)),
        '\u{1d365}' => Some((6i64, 0i32)),
        '\u{1d366}' => Some((7i64, 0i32)),
        '\u{1d367}' => Some((8i64, 0i32)),
        '\u{1d368}' => Some((9i64, 0i32)),
        '\u{1d369}' => Some((1i64, 1i32)),
        '\u{1d36a}' => Some((2i64, 1i32)),
        '\u{1d36b}' => Some((3i64, 1i32)),
        '\u{1d36c}' => Some((4i64, 1i32)),
        '\u{1d36d}' => Some((5i64, 1i32)),
        '\u{1d36e}' => Some((6i64, 1i32)),
        '\u{1d36f}' => Some((7i64, 1i32)),
        '\u{1d370}' => Some((8i64, 1i32)),
        '\u{1d371}' => Some((9i64, 1i32)),
        '\u{1d372}' => Some((1i64, 0i32)),
        '\u{1d373}' => Some((2i64, 0i32)),
        '\u{1d374}' => Some((3i64, 0i32)),
        '\u{1d375}' => Some((4i64, 0i32)),
        '\u{1d376}' => Some((5i64, 0i32)),
        '\u{1d377}' => Some((1i64, 0i32)),
        '\u{1d378}' => Some((5i64, 0i32)),
        '\u{1e8c7}' => Some((1i64, 0i32)),
        '\u{1e8c8}' => Some((2i64, 0i32)),
        '\u{1e8c9}' => Some((3i64, 0i32)),
        '\u{1e8ca}' => Some((4i64, 0i32)),
        '\u{1e8cb}' => Some((5i64, 0i32)),
        '\u{1e8cc}' => Some((6i64, 0i32)),
        '\u{1e8cd}' => Some((7i64, 0i32)),
        '\u{1e8ce}' => Some((8i64, 0i32)),
        '\u{1e8cf}' => Some((9i64, 0i32)),
        '\u{1ec71}' => Some((1i64, 0i32)),
        '\u{1ec72}' => Some((2i64, 0i32)),
        '\u{1ec73}' => Some((3i64, 0i32)),
        '\u{1ec74}' => Some((4i64, 0i32)),
        '\u{1ec75}' => Some((5i64, 0i32)),
        '\u{1ec76}' => Some((6i64, 0i32)),
        '\u{1ec77}' => Some((7i64, 0i32)),
        '\u{1ec78}' => Some((8i64, 0i32)),
        '\u{1ec79}' => Some((9i64, 0i32)),
        '\u{1ec7a}' => Some((1i64, 1i32)),
        '\u{1ec7b}' => Some((2i64, 1i32)),
        '\u{1ec7c}' => Some((3i64, 1i32)),
        '\u{1ec7d}' => Some((4i64, 1i32)),
        '\u{1ec7e}' => Some((5i64, 1i32)),
        '\u{1ec7f}' => Some((6i64, 1i32)),
        '\u{1ec80}' => Some((7i64, 1i32)),
        '\u{1ec81}' => Some((8i64, 1i32)),
        _ => None,
    }
}

pub open spec fn spec_unicode_numeric_part23(c: char) -> Option<(i64, i32)> {
    match c {
        '\u{1ec82}' => Some((9i64, 1i32)),
        '\u{1ec83}' => Some((1i64, 2i32)),
        '\u{1ec84}' => Some((2i64, 2i32)),
        '\u{1ec85}' => Some((3i64, 2i32)),
        '\u{1ec86}' => Some((4i64, 2i32)),
        '\u{1ec87}' => Some((5i64, 2i32)),
        '\u{1ec88}' => Some((6i64, 2i32)),
        '\u{1ec89}' => Some((7i64, 2i32)),
        '\u{1ec8a}' => Some((8i64, 2i32)),
        '\u{1ec8b}' => Some((9i64, 2i32)),
        '\u{1ec8c}' => Some((1i64, 3i32)),
        '\u{1ec8d}' => Some((2i64, 3i32)),
        '\u{1ec8e}' => Some((3i64, 3i32)),
        '\u{1ec8f}' => Some((4i64, 3i32)),
        '\u{1ec90}' => Some((5i64, 3i32)),
        '\u{1ec91}' => Some((6i64, 3i32)),
        '\u{1ec92}' => Some((7i64, 3i32)),
        '\u{1ec93}' => Some((8i64, 3i32)),
        '\u{1ec94}' => Some((9i64, 3i32)),
        '\u{1ec95}' => Some((1i64, 4i32)),
        '\u{1ec96}' => Some((2i64, 4i32)),
        '\u{1ec97}' => Some((3i64, 4i32)),
        '\u{1ec98}' => Some((4i64, 4i32)),
        '\u{1ec99}' => Some((5i64, 4i32)),
        '\u{1ec9a}' => Some((6i64, 4i32)),
        '\u{1ec9b}' => Some((7i64, 4i32)),
        '\u{1ec9c}' => Some((8i64, 4i32)),
        '\u{1ec9d}' => Some((9i64, 4i32)),
        '\u{1ec9e}' => Some((1i64, 5i32)),
        '\u{1ec9f}' => Some((2i64, 5i32)),
        '\u{1eca0}' => Some((1i64, 5i32)),
        '\u{1eca1}' => Some((1i64, 7i32)),
        '\u{1eca2}' => Some((2i64, 7i32)),
        '\u{1eca3}' => Some((1i64, 0i32)),
        '\u{1eca4}' => Some((2i64, 0i32)),
        '\u{1eca5}' => Some((3i64, 0i32)),
        '\u{1eca6}' => Some((4i64, 0i32)),
        '\u{1eca7}' => Some((5i64, 0i32)),
        '\u{1eca8}' => Some((6i64, 0i32)),
        '\u{1eca9}' => Some((7i64, 0i32)),
        '\u{1ecaa}' => Some((8i64, 0i32)),
        '\u{1ecab}' => Some((9i64, 0i32)),
        '\u{1ecad}' => Some((25i64, -2i32)),
        '\u{1ecae}' => Some((5i64, -1i32)),
        '\u{1ecaf}' => Some((75i64, -2i32)),
        '\u{1ecb1}' => Some((1i64, 0i32)),
        '\u{1ecb2}' => Some((2i64, 0i32)),
        '\u{1ecb3}' => Some((1i64, 4i32)),
        _ => None,
    }
}

pub open spec fn spec_unicode_numeric_part24(c: char) -> Option<(i64, i32)> {
    match c {
        '\u{1ecb4}' => Some((1i64, 5i32)),
        '\u{1ed01}' => Some((1i64, 0i32)),
        '\u{1ed02}' => Some((2i64, 0i32)),
        '\u{1ed03}' => Some((3i64, 0i32)),
        '\u{1ed04}' => Some((4i64, 0i32)),
        '\u{1ed05}' => Some((5i64, 0i32)),
        '\u{1ed06}' => Some((6i64, 0i32)),
        '\u{1ed07}' => Some((7i64, 0i32)),
        '\u{1ed08}' => Some((8i64, 0i32)),
        '\u{1ed09}' => Some((9i64, 0i32)),
        '\u{1ed0a}' => Some((1i64, 1i32)),
        '\u{1ed0b}' => Some((2i64, 1i32)),
        '\u{1ed0c}' => Some((3i64, 1i32)),
        '\u{1ed0d}' => Some((4i64, 1i32)),
        '\u{1ed0e}' => Some((5i64, 1i32)),
        '\u{1ed0f}' => Some((6i64, 1i32)),
        '\u{1ed10}' => Some((7i64, 1i32)),
        '\u{1ed11}' => Some((8i64, 1i32)),
        '\u{1ed12}' => Some((9i64, 1i32)),
        '\u{1ed13}' => Some((1i64, 2i32)),
        '\u{1ed14}' => Some((2i64, 2i32)),
        '\u{1ed15}' => Some((3i64, 2i32)),
        '\u{1ed16}' => Some((4i64, 2i32)),
        '\u{1ed17}' => Some((5i64, 2i32)),
        '\u{1ed18}' => Some((6i64, 2i32)),
        '\u{1ed19}' => Some((7i64, 2i32)),
        '\u{1ed1a}' => Some((8i64, 2i32)),
        '\u{1ed1b}' => Some((9i64, 2i32)),
        '\u{1ed1c}' => Some((1i64, 3i32)),
        '\u{1ed1d}' => Some((2i64, 3i32)),
        '\u{1ed1e}' => Some((3i64, 3i32)),
        '\u{1ed1f}' => Some((4i64, 3i32)),
        '\u{1ed20}' => Some((5i64, 3i32)),
        '\u{1ed21}' => Some((6i64, 3i32)),
        '\u{1ed22}' => Some((7i64, 3i32)),
        '\u{1ed23}' => Some((8i64, 3i32)),
        '\u{1ed24}' => Some((9i64, 3i32)),
        '\u{1ed25}' => Some((1i64, 4i32)),
        '\u{1ed26}' => Some((2i64, 4i32)),
        '\u{1ed27}' => Some((3i64, 4i32)),
        '\u{1ed28}' => Some((4i64, 4i32)),
        '\u{1ed29}' => Some((5i64, 4i32)),
        '\u{1ed2a}' => Some((6i64, 4i32)),
        '\u{1ed2b}' => Some((7i64, 4i32)),
        '\u{1ed2c}' => Some((8i64, 4i32)),
        '\u{1ed2d}' => Some((9i64, 4i32)),
        '\u{1ed2f}' => Some((2i64, 0i32)),
        '\u{1ed30}' => Some((3i64, 0i32)),
        _ => None,
    }
}

pub open spec fn spec_unicode_numeric_part25(c: char) -> Option<(i64, i32)> {
    match c {
        '\u{1ed31}' => Some((4i64, 0i32)),
        '\u{1ed32}' => Some((5i64, 0i32)),
        '\u{1ed33}' => Some((6i64, 0i32)),
        '\u{1ed34}' => Some((7i64, 0i32)),
        '\u{1ed35}' => Some((8i64, 0i32)),
        '\u{1ed36}' => Some((9i64, 0i32)),
        '\u{1ed37}' => Some((1i64, 1i32)),
        '\u{1ed38}' => Some((4i64, 2i32)),
        '\u{1ed39}' => Some((6i64, 2i32)),
        '\u{1ed3a}' => Some((2i64, 3i32)),
        '\u{1ed3b}' => Some((1i64, 4i32)),
        '\u{1ed3c}' => Some((5i64, -1i32)),
        '\u{1ed3d}' => Some((16666666666666666i64, -17i32)),
        '\u{1f100}' => Some((0i64, 0i32)),
        '\u{1f101}' => Some((0i64, 0i32)),
        '\u{1f102}' => Some((1i64, 0i32)),
        '\u{1f103}' => Some((2i64, 0i32)),
        '\u{1f104}' => Some((3i64, 0i32)),
        '\u{1f105}' => Some((4i64, 0i32)),
        '\u{1f106}' => Some((5i64, 0i32)),
        '\u{1f107}' => Some((6i64, 0i32)),
        '\u{1f108}' => Some((7i64, 0i32)),
        '\u{1f109}' => Some((8i64, 0i32)),
        '\u{1f10a}' => Some((9i64, 0i32)),
        '\u{1f10b}' => Some((0i64, 0i32)),
        '\u{1f10c}' => Some((0i64, 0i32)),
        '\u{20001}' => Some((7i64, 0i32)),
        '\u{20064}' => Some((4i64, 0i32)),
        '\u{200e2}' => Some((4i64, 0i32)),
        '\u{20121}' => Some((5i64, 0i32)),
        '\u{2092a}' => Some((1i64, 0i32)),
        '\u{20983}' => Some((3i64, 1i32)),
        '\u{2098c}' => Some((4i64, 1i32)),
        '\u{2099c}' => Some((4i64, 1i32)),
        '\u{20aea}' => Some((6i64, 0i32)),
        '\u{20afd}' => Some((3i64, 0i32)),
        '\u{20b19}' => Some((3i64, 0i32)),
        '\u{22390}' => Some((2i64, 0i32)),
        '\u{22998}' => Some((3i64, 0i32)),
        '\u{23b1b}' => Some((3i64, 0i32)),
        '\u{2626d}' => Some((4i64, 0i32)),
        '\u{2f890}' => Some((9i64, 0i32)),
        _ => None,
    }
}

/// The value of a Unicode character that has a numeric value without being a
/// decimal digit (fractions, Roman numerals, ideographic numbers and so on),
/// as `(mantissa, exponent)` meaning `mantissa * 10^exponent`, with the
/// shortest mantissa that reproduces the character's floating-point value.
pub open spec fn spec_unicode_numeric(c: char) -> Option<(i64, i32)> {
    if (c as u32) <= 0xf2d {
        spec_unicode_numeric_part0(c)
    } else if (c as u32) <= 0x2080 {
        spec_unicode_numeric_part1(c)
    } else if (c as u32) <= 0x2176 {
        spec_unicode_numeric_part2(c)
    } else if (c as u32) <= 0x247e {
        spec_unicode_numeric_part3(c)
    } else if (c as u32) <= 0x24fc {
        spec_unicode_numeric_part4(c)
    } else if (c as u32) <= 0x3192 {
        spec_unicode_numeric_part5(c)
    } else if (c as u32) <= 0x32b2 {
        spec_unicode_numeric_part6(c)
    } else if (c as u32) <= 0x53c3 {
        spec_unicode_numeric_part7(c)
    } else if (c as u32) <= 0xa834 {
        spec_unicode_numeric_part8(c)
    } else if (c as u32) <= 0x1012e {
        spec_unicode_numeric_part9(c)
    } else if (c as u32) <= 0x1016a {
        spec_unicode_numeric_part10(c)
    } else if (c as u32) <= 0x10341 {
        spec_unicode_numeric_part11(c)
    } else if (c as u32) <= 0x109c4 {
        spec_unicode_numeric_part12(c)
    } else if (c as u32) <= 0x109f6 {
        spec_unicode_numeric_part13(c)
    } else if (c as u32) <= 0x10bac {
        spec_unicode_numeric_part14(c)
    } else if (c as u32) <= 0x10f24 {
        spec_unicode_numeric_part15(c)
    } else if (c as u32) <= 0x111ef {
        spec_unicode_numeric_part16(c)
    } else if (c as u32) <= 0x11fcc {
        spec_unicode_numeric_part17(c)
    } else if (c as u32) <= 0x12427 {
        spec_unicode_numeric_part18(c)
    } else if (c as u32) <= 0x12457 {
        spec_unicode_numeric_part19(c)
    } else if (c as u32) <= 0x16e91 {
        spec_unicode_numeric_part20(c)
    } else if (c as u32) <= 0x1d362 {
        spec_unicode_numeric_part21(c)
    } else if (c as u32) <= 0x1ec81 {
        spec_unicode_numeric_part22(c)
    } else if (c as u32) <= 0x1ecb3 {
        spec_unicode_numeric_part23(c)
    } else if (c as u32) <= 0x1ed30 {
        spec_unicode_numeric_part24(c)
    } else {
        spec_unicode_numeric_part25(c)
    }
}

fn unicode_numeric_part0(c: char) -> (r: Option<(i64, i32)>)
    ensures
        r == spec_unicode_numeric_part0(c),
{
    match c {
        '\u{b2}' => Some((2i64, 0i32)),
        '\u{b3}' => Some((3i64, 0i32)),
        '\u{b9}' => Some((1i64, 0i32)),
        '\u{bc}' => Some((25i64, -2i32)),
        '\u{bd}' => Some((5i64, -1i32)),
        '\u{be}' => Some((75i64, -2i32)),
        '\u{9f4}' => Some((625i64, -4i32)),
        '\u{9f5}' => Some((125i64, -3i32)),
        '\u{9f6}' => Some((1875i64, -4i32)),
        '\u{9f7}' => Some((25i64, -2i32)),
        '\u{9f8}' => Some((75i64, -2i32)),
        '\u{9f9}' => Some((16i64, 0i32)),
        '\u{b72}' => Some((25i64, -2i32)),
        '\u{b73}' => Some((5i64, -1i32)),
        '\u{b74}' => Some((75i64, -2i32)),
        '\u{b75}' => Some((625i64, -4i32)),
        '\u{b76}' => Some((125i64, -3i32)),
        '\u{b77}' => Some((1875i64, -4i32)),
        '\u{bf0}' => Some((1i64, 1i32)),
        '\u{bf1}' => Some((1i64, 2i32)),
        '\u{bf2}' => Some((1i64, 3i32)),
        '\u{c78}' => Some((0i64, 0i32)),
        '\u{c79}' => Some((1i64, 0i32)),
        '\u{c7a}' => Some((2i64, 0i32)),
        '\u{c7b}' => Some((3i64, 0i32)),
        '\u{c7c}' => Some((1i64, 0i32)),
        '\u{c7d}' => Some((2i64, 0i32)),
        '\u{c7e}' => Some((3i64, 0i32)),
        '\u{d58}' => Some((625i64, -5i32)),
        '\u{d59}' => Some((25i64, -3i32)),
        '\u{d5a}' => Some((375i64, -4i32)),
        '\u{d5b}' => Some((5i64, -2i32)),
        '\u{d5c}' => Some((1i64, -1i32)),
        '\u{d5d}' => Some((15i64, -2i32)),
        '\u{d5e}' => Some((2i64, -1i32)),
        '\u{d70}' => Some((1i64, 1i32)),
        '\u{d71}' => Some((1i64, 2i32)),
        '\u{d72}' => Some((1i64, 3i32)),
        '\u{d73}' => Some((25i64, -2i32)),
        '\u{d74}' => Some((5i64, -1i32)),
        '\u{d75}' => Some((75i64, -2i32)),
        '\u{d76}' => Some((625i64, -4i32)),
        '\u{d77}' => Some((125i64, -3i32)),
        '\u{d78}' => Some((1875i64, -4i32)),
        '\u{f2a}' => Some((5i64, -1i32)),
        '\u{f2b}' => Some((15i64, -1i32)),
        '\u{f2c}' => Some((25i64, -1i32)),
        '\u{f2d}' => Some((35i64, -1i32)),
        _ => None,
    }
}

fn unicode_numeric_part1(c: char) -> (r: Option<(i64, i32)>)
    ensures
        r == spec_unicode_numeric_part1(c),
{
    match c {
        '\u{f2e}' => Some((45i64, -1i32)),
        '\u{f2f}' => Some((55i64, -1i32)),
        '\u{f30}' => Some((65i64, -1i32)),
        '\u{f31}' => Some((75i64, -1i32)),
        '\u{f32}' => Some((85i64, -1i32)),
        '\u{f33}' => Some((-5i64, -1i32)),
        '\u{1369}' => Some((1i64, 0i32)),
        '\u{136a}' => Some((2i64, 0i32)),
        '\u{136b}' => Some((3i64, 0i32)),
        '\u{136c}' => Some((4i64, 0i32)),
        '\u{136d}' => Some((5i64, 0i32)),
        '\u{136e}' => Some((6i64, 0i32)),
        '\u{136f}' => Some((7i64, 0i32)),
        '\u{1370}' => Some((8i64, 0i32)),
        '\u{1371}' => Some((9i64, 0i32)),
        '\u{1372}' => Some((1i64, 1i32)),
        '\u{1373}' => Some((2i64, 1i32)),
        '\u{1374}' => Some((3i64, 1i32)),
        '\u{1375}' => Some((4i64, 1i32)),
        '\u{1376}' => Some((5i64, 1i32)),
        '\u{1377}' => Some((6i64, 1i32)),
        '\u{1378}' => Some((7i64, 1i32)),
        '\u{1379}' => Some((8i64, 1i32)),
        '\u{137a}' => Some((9i64, 1i32)),
        '\u{137b}' => Some((1i64, 2i32)),
        '\u{137c}' => Some((1i64, 4i32)),
        '\u{16ee}' => Some((17i64, 0i32)),
        '\u{16ef}' => Some((18i64, 0i32)),
        '\u{16f0}' => Some((19i64, 0i32)),
        '\u{17f0}' => Some((0i64, 0i32)),
        '\u{17f1}' => Some((1i64, 0i32)),
        '\u{17f2}' => Some((2i64, 0i32)),
        '\u{17f3}' => Some((3i64, 0i32)),
        '\u{17f4}' => Some((4i64, 0i32)),
        '\u{17f5}' => Some((5i64, 0i32)),
        '\u{17f6}' => Some((6i64, 0i32)),
        '\u{17f7}' => Some((7i64, 0i32)),
        '\u{17f8}' => Some((8i64, 0i32)),
        '\u{17f9}' => Some((9i64, 0i32)),
        '\u{19da}' => Some((1i64, 0i32)),
        '\u{2070}' => Some((0i64, 0i32)),
        '\u{2074}' => Some((4i64, 0i32)),
        '\u{2075}' => Some((5i64, 0i32)),
        '\u{2076}' => Some((6i64, 0i32)),
        '\u{2077}' => Some((7i64, 0i32)),
        '\u{2078}' => Some((8i64, 0i32)),
        '\u{2079}' => Some((9i64, 0i32)),
        '\u{2080}' => Some((0i64, 0i32)),
        _ => None,
    }
}

fn unicode_numeric_part2(c: char) -> (r: Option<(i64, i32)>)
    ensures
        r == spec_unicode_numeric_part2(c),
{
    match c {
        '\u{2081}' => Some((1i64, 0i32)),
        '\u{2082}' => Some((2i64, 0i32)),
        '\u{2083}' => Some((3i64, 0i32)),
        '\u{2084}' => Some((4i64, 0i32)),
        '\u{2085}' => Some((5i64, 0i32)),
        '\u{2086}' => Some((6i64, 0i32)),
        '\u{2087}' => Some((7i64, 0i32)),
        '\u{2088}' => Some((8i64, 0i32)),
        '\u{2089}' => Some((9i64, 0i32)),
        '\u{2150}' => Some((14285714285714285i64, -17i32)),
        '\u{2151}' => Some((1111111111111111i64, -16i32)),
        '\u{2152}' => Some((1i64, -1i32)),
        '\u{2153}' => Some((3333333333333333i64, -16i32)),
        '\u{2154}' => Some((6666666666666666i64, -16i32)),
        '\u{2155}' => Some((2i64, -1i32)),
        '\u{2156}' => Some((4i64, -1i32)),
        '\u{2157}' => Some((6i64, -1i32)),
        '\u{2158}' => Some((8i64, -1i32)),
        '\u{2159}' => Some((16666666666666666i64, -17i32)),
        '\u{215a}' => Some((8333333333333334i64, -16i32)),
        '\u{215b}' => Some((125i64, -3i32)),
        '\u{215c}' => Some((375i64, -3i32)),
        '\u{215d}' => Some((625i64, -3i32)),
        '\u{215e}' => Some((875i64, -3i32)),
        '\u{215f}' => Some((1i64, 0i32)),
        '\u{2160}' => Some((1i64, 0i32)),
        '\u{2161}' => Some((2i64, 0i32)),
        '\u{2162}' => Some((3i64, 0i32)),
        '\u{2163}' => Some((4i64, 0i32)),
        '\u{2164}' => Some((5i64, 0i32)),
        '\u{2165}' => Some((6i64, 0i32)),
        '\u{2166}' => Some((7i64, 0i32)),
        '\u{2167}' => Some((8i64, 0i32)),
        '\u{2168}' => Some((9i64, 0i32)),
        '\u{2169}' => Some((1i64, 1i32)),
        '\u{216a}' => Some((11i64, 0i32)),
        '\u{216b}' => Some((12i64, 0i32)),
        '\u{216c}' => Some((5i64, 1i32)),
        '\u{216d}' => Some((1i64, 2i32)),
        '\u{216e}' => Some((5i64, 2i32)),
        '\u{216f}' => Some((1i64, 3i32)),
        '\u{2170}' => Some((1i64, 0i32)),
        '\u{2171}' => Some((2i64, 0i32)),
        '\u{2172}' => Some((3i64, 0i32)),
        '\u{2173}' => Some((4i64, 0i32)),
        '\u{2174}' => Some((5i64, 0i32)),
        '\u{2175}' => Some((6i64, 0i32)),
        '\u{2176}' => Some((7i64, 0i32)),
        _ => None,
    }
}

fn unicode_numeric_part3(c: char) -> (r: Option<(i64, i32)>)
    ensures
        r == spec_unicode_numeric_part3(c),
{
    match c {
        '\u{2177}' => Some((8i64, 0i32)),
        '\u{2178}' => Some((9i64, 0i32)),
        '\u{2179}' => Some((1i64, 1i32)),
        '\u{217a}' => Some((11i64, 0i32)),
        '\u{217b}' => Some((12i64, 0i32)),
        '\u{217c}' => Some((5i64, 1i32)),
        '\u{217d}' => Some((1i64, 2i32)),
        '\u{217e}' => Some((5i64, 2i32)),
        '\u{217f}' => Some((1i64, 3i32)),
        '\u{2180}' => Some((1i64, 3i32)),
        '\u{2181}' => Some((5i64, 3i32)),
        '\u{2182}' => Some((1i64, 4i32)),
        '\u{2185}' => Some((6i64, 0i32)),
        '\u{2186}' => Some((5i64, 1i32)),
        '\u{2187}' => Some((5i64, 4i32)),
        '\u{2188}' => Some((1i64, 5i32)),
        '\u{2189}' => Some((0i64, 0i32)),
        '\u{2460}' => Some((1i64, 0i32)),
        '\u{2461}' => Some((2i64, 0i32)),
        '\u{2462}' => Some((3i64, 0i32)),
        '\u{2463}' => Some((4i64, 0i32)),
        '\u{2464}' => Some((5i64, 0i32)),
        '\u{2465}' => Some((6i64, 0i32)),
        '\u{2466}' => Some((7i64, 0i32)),
        '\u{2467}' => Some((8i64, 0i32)),
        '\u{2468}' => Some((9i64, 0i32)),
        '\u{2469}' => Some((1i64, 1i32)),
        '\u{246a}' => Some((11i64, 0i32)),
        '\u{246b}' => Some((12i64, 0i32)),
        '\u{246c}' => Some((13i64, 0i32)),
        '\u{246d}' => Some((14i64, 0i32)),
        '\u{246e}' => Some((15i64, 0i32)),
        '\u{246f}' => Some((16i64, 0i32)),
        '\u{2470}' => Some((17i64, 0i32)),
        '\u{2471}' => Some((18i64, 0i32)),
        '\u{2472}' => Some((19i64, 0i32)),
        '\u{2473}' => Some((2i64, 1i32)),
        '\u{2474}' => Some((1i64, 0i32)),
        '\u{2475}' => Some((2i64, 0i32)),
        '\u{2476}' => Some((3i64, 0i32)),
        '\u{2477}' => Some((4i64, 0i32)),
        '\u{2478}' => Some((5i64, 0i32)),
        '\u{2479}' => Some((6i64, 0i32)),
        '\u{247a}' => Some((7i64, 0i32)),
        '\u{247b}' => Some((8i64, 0i32)),
        '\u{247c}' => Some((9i64, 0i32)),
        '\u{247d}' => Some((1i64, 1i32)),
        '\u{247e}' => Some((11i64, 0i32)),
        _ => None,
    }
}

fn unicode_numeric_part4(c: char) -> (r: Option<(i64, i32)>)
    ensures
        r == spec_unicode_numeric_part4(c),
{
    match c {
        '\u{247f}' => Some((12i64, 0i32)),
        '\u{2480}' => Some((13i64, 0i32)),
        '\u{2481}' => Some((14i64, 0i32)),
        '\u{2482}' => Some((15i64, 0i32)),
        '\u{2483}' => Some((16i64, 0i32)),
        '\u{2484}' => Some((17i64, 0i32)),
        '\u{2485}' => Some((18i64, 0i32)),
        '\u{2486}' => Some((19i64, 0i32)),
        '\u{2487}' => Some((2i64, 1i32)),
        '\u{2488}' => Some((1i64, 0i32)),
        '\u{2489}' => Some((2i64, 0i32)),
        '\u{248a}' => Some((3i64, 0i32)),
        '\u{248b}' => Some((4i64, 0i32)),
        '\u{248c}' => Some((5i64, 0i32)),
        '\u{248d}' => Some((6i64, 0i32)),
        '\u{248e}' => Some((7i64, 0i32)),
        '\u{248f}' => Some((8i64, 0i32)),
        '\u{2490}' => Some((9i64, 0i32)),
        '\u{2491}' => Some((1i64, 1i32)),
        '\u{2492}' => Some((11i64, 0i32)),
        '\u{2493}' => Some((12i64, 0i32)),
        '\u{2494}' => Some((13i64, 0i32)),
        '\u{2495}' => Some((14i64, 0i32)),
        '\u{2496}' => Some((15i64, 0i32)),
        '\u{2497}' => Some((16i64, 0i32)),
        '\u{2498}' => Some((17i64, 0i32)),
        '\u{2499}' => Some((18i64, 0i32)),
        '\u{249a}' => Some((19i64, 0i32)),
        '\u{249b}' => Some((2i64, 1i32)),
        '\u{24ea}' => Some((0i64, 0i32)),
        '\u{24eb}' => Some((11i64, 0i32)),
        '\u{24ec}' => Some((12i64, 0i32)),
        '\u{24ed}' => Some((13i64, 0i32)),
        '\u{24ee}' => Some((14i64, 0i32)),
        '\u{24ef}' => Some((15i64, 0i32)),
        '\u{24f0}' => Some((16i64, 0i32)),
        '\u{24f1}' => Some((17i64, 0i32)),
        '\u{24f2}' => Some((18i64, 0i32)),
        '\u{24f3}' => Some((19i64, 0i32)),
        '\u{24f4}' => Some((2i64, 1i32)),
        '\u{24f5}' => Some((1i64, 0i32)),
        '\u{24f6}' => Some((2i64, 0i32)),
        '\u{24f7}' => Some((3i64, 0i32)),
        '\u{24f8}' => Some((4i64, 0i32)),
        '\u{24f9}' => Some((5i64, 0i32)),
        '\u{24fa}' => Some((6i64, 0i32)),
        '\u{24fb}' => Some((7i64, 0i32)),
        '\u{24fc}' => Some((8i64, 0i32)),
        _ => None,
    }
}

fn unicode_numeric_part5(c: char) -> (r: Option<(i64, i32)>)
    ensures
        r == spec_unicode_numeric_part5(c),
{
    match c {
        '\u{24fd}' => Some((9i64, 0i32)),
        '\u{24fe}' => Some((1i64, 1i32)),
        '\u{24ff}' => Some((0i64, 0i32)),
        '\u{2776}' => Some((1i64, 0i32)),
        '\u{2777}' => Some((2i64, 0i32)),
        '\u{2778}' => Some((3i64, 0i32)),
        '\u{2779}' => Some((4i64, 0i32)),
        '\u{277a}' => Some((5i64, 0i32)),
        '\u{277b}' => Some((6i64, 0i32)),
        '\u{277c}' => Some((7i64, 0i32)),
        '\u{277d}' => Some((8i64, 0i32)),
        '\u{277e}' => Some((9i64, 0i32)),
        '\u{277f}' => Some((1i64, 1i32)),
        '\u{2780}' => Some((1i64, 0i32)),
        '\u{2781}' => Some((2i64, 0i32)),
        '\u{2782}' => Some((3i64, 0i32)),
        '\u{2783}' => Some((4i64, 0i32)),
        '\u{2784}' => Some((5i64, 0i32)),
        '\u{2785}' => Some((6i64, 0i32)),
        '\u{2786}' => Some((7i64, 0i32)),
        '\u{2787}' => Some((8i64, 0i32)),
        '\u{2788}' => Some((9i64, 0i32)),
        '\u{2789}' => Some((1i64, 1i32)),
        '\u{278a}' => Some((1i64, 0i32)),
        '\u{278b}' => Some((2i64, 0i32)),
        '\u{278c}' => Some((3i64, 0i32)),
        '\u{278d}' => Some((4i64, 0i32)),
        '\u{278e}' => Some((5i64, 0i32)),
        '\u{278f}' => Some((6i64, 0i32)),
        '\u{2790}' => Some((7i64, 0i32)),
        '\u{2791}' => Some((8i64, 0i32)),
        '\u{2792}' => Some((9i64, 0i32)),
        '\u{2793}' => Some((1i64, 1i32)),
        '\u{2cfd}' => Some((5i64, -1i32)),
        '\u{3007}' => Some((0i64, 0i32)),
        '\u{3021}' => Some((1i64, 0i32)),
        '\u{3022}' => Some((2i64, 0i32)),
        '\u{3023}' => Some((3i64, 0i32)),
        '\u{3024}' => Some((4i64, 0i32)),
        '\u{3025}' => Some((5i64, 0i32)),
        '\u{3026}' => Some((6i64, 0i32)),
        '\u{3027}' => Some((7i64, 0i32)),
        '\u{3028}' => Some((8i64, 0i32)),
        '\u{3029}' => Some((9i64, 0i32)),
        '\u{3038}' => Some((1i64, 1i32)),
        '\u{3039}' => Some((2i64, 1i32)),
        '\u{303a}' => Some((3i64, 1i32)),
        '\u{3192}' => Some((1i64, 0i32)),
        _ => None,
    }
}

fn unicode_numeric_part6(c: char) -> (r: Option<(i64, i32)>)
    ensures
        r == spec_unicode_numeric_part6(c),
{
    match c {
        '\u{3193}' => Some((2i64, 0i32)),
        '\u{3194}' => Some((3i64, 0i32)),
        '\u{3195}' => Some((4i64, 0i32)),
        '\u{3220}' => Some((1i64, 0i32)),
        '\u{3221}' => Some((2i64, 0i32)),
        '\u{3222}' => Some((3i64, 0i32)),
        '\u{3223}' => Some((4i64, 0i32)),
        '\u{3224}' => Some((5i64, 0i32)),
        '\u{3225}' => Some((6i64, 0i32)),
        '\u{3226}' => Some((7i64, 0i32)),
        '\u{3227}' => Some((8i64, 0i32)),
        '\u{3228}' => Some((9i64, 0i32)),
        '\u{3229}' => Some((1i64, 1i32)),
        '\u{3248}' => Some((1i64, 1i32)),
        '\u{3249}' => Some((2i64, 1i32)),
        '\u{324a}' => Some((3i64, 1i32)),
        '\u{324b}' => Some((4i64, 1i32)),
        '\u{324c}' => Some((5i64, 1i32)),
        '\u{324d}' => Some((6i64, 1i32)),
        '\u{324e}' => Some((7i64, 1i32)),
        '\u{324f}' => Some((8i64, 1i32)),
        '\u{3251}' => Some((21i64, 0i32)),
        '\u{3252}' => Some((22i64, 0i32)),
        '\u{3253}' => Some((23i64, 0i32)),
        '\u{3254}' => Some((24i64, 0i32)),
        '\u{3255}' => Some((25i64, 0i32)),
        '\u{3256}' => Some((26i64, 0i32)),
        '\u{3257}' => Some((27i64, 0i32)),
        '\u{3258}' => Some((28i64, 0i32)),
        '\u{3259}' => Some((29i64, 0i32)),
        '\u{325a}' => Some((3i64, 1i32)),
        '\u{325b}' => Some((31i64, 0i32)),
        '\u{325c}' => Some((32i64, 0i32)),
        '\u{325d}' => Some((33i64, 0i32)),
        '\u{325e}' => Some((34i64, 0i32)),
        '\u{325f}' => Some((35i64, 0i32)),
        '\u{3280}' => Some((1i64, 0i32)),
        '\u{3281}' => Some((2i64, 0i32)),
        '\u{3282}' => Some((3i64, 0i32)),
        '\u{3283}' => Some((4i64, 0i32)),
        '\u{3284}' => Some((5i64, 0i32)),
        '\u{3285}' => Some((6i64, 0i32)),
        '\u{3286}' => Some((7i64, 0i32)),
        '\u{3287}' => Some((8i64, 0i32)),
        '\u{3288}' => Some((9i64, 0i32)),
        '\u{3289}' => Some((1i64, 1i32)),
        '\u{32b1}' => Some((36i64, 0i32)),
        '\u{32b2}' => Some((37i64, 0i32)),
        _ => None,
    }
}

fn unicode_numeric_part7(c: char) -> (r: Option<(i64, i32)>)
    ensures
        r == spec_unicode_numeric_part7(c),
{
    match c {
        '\u{32b3}' => Some((38i64, 0i32)),
        '\u{32b4}' => Some((39i64, 0i32)),
        '\u{32b5}' => Some((4i64, 1i32)),
        '\u{32b6}' => Some((41i64, 0i32)),
        '\u{32b7}' => Some((42i64, 0i32)),
        '\u{32b8}' => Some((43i64, 0i32)),
        '\u{32b9}' => Some((44i64, 0i32)),
        '\u{32ba}' => Some((45i64, 0i32)),
        '\u{32bb}' => Some((46i64, 0i32)),
        '\u{32bc}' => Some((47i64, 0i32)),
        '\u{32bd}' => Some((48i64, 0i32)),
        '\u{32be}' => Some((49i64, 0i32)),
        '\u{32bf}' => Some((5i64, 1i32)),
        '\u{3405}' => Some((5i64, 0i32)),
        '\u{3483}' => Some((2i64, 0i32)),
        '\u{382a}' => Some((5i64, 0i32)),
        '\u{3b4d}' => Some((7i64, 0i32)),
        '\u{4e00}' => Some((1i64, 0i32)),
        '\u{4e03}' => Some((7i64, 0i32)),
        '\u{4e07}' => Some((1i64, 4i32)),
        '\u{4e09}' => Some((3i64, 0i32)),
        '\u{4e24}' => Some((2i64, 0i32)),
        '\u{4e5d}' => Some((9i64, 0i32)),
        '\u{4e8c}' => Some((2i64, 0i32)),
        '\u{4e94}' => Some((5i64, 0i32)),
        '\u{4e96}' => Some((4i64, 0i32)),
        '\u{4eac}' => Some((1i64, 16i32)),
        '\u{4ebf}' => Some((1i64, 8i32)),
        '\u{4ec0}' => Some((1i64, 1i32)),
        '\u{4edf}' => Some((1i64, 3i32)),
        '\u{4ee8}' => Some((3i64, 0i32)),
        '\u{4f0d}' => Some((5i64, 0i32)),
        '\u{4f70}' => Some((1i64, 2i32)),
        '\u{4fe9}' => Some((2i64, 0i32)),
        '\u{5006}' => Some((2i64, 0i32)),
        '\u{5104}' => Some((1i64, 8i32)),
        '\u{5146}' => Some((1i64, 6i32)),
        '\u{5169}' => Some((2i64, 0i32)),
        '\u{516b}' => Some((8i64, 0i32)),
        '\u{516d}' => Some((6i64, 0i32)),
        '\u{5341}' => Some((1i64, 1i32)),
        '\u{5343}' => Some((1i64, 3i32)),
        '\u{5344}' => Some((2i64, 1i32)),
        '\u{5345}' => Some((3i64, 1i32)),
        '\u{534c}' => Some((4i64, 1i32)),
        '\u{53c1}' => Some((3i64, 0i32)),
        '\u{53c2}' => Some((3i64, 0i32)),
        '\u{53c3}' => Some((3i64, 0i32)),
        _ => None,
    }
}

fn unicode_numeric_part8(c: char) -> (r: Option<(i64, i32)>)
    ensures
        r == spec_unicode_numeric_part8(c),
{
    match c {
        '\u{53c4}' => Some((3i64, 0i32)),
        '\u{56db}' => Some((4i64, 0i32)),
        '\u{58f1}' => Some((1i64, 0i32)),
        '\u{58f9}' => Some((1i64, 0i32)),
        '\u{5e7a}' => Some((1i64, 0i32)),
        '\u{5efe}' => Some((9i64, 0i32)),
        '\u{5eff}' => Some((2i64, 1i32)),
        '\u{5f0c}' => Some((1i64, 0i32)),
        '\u{5f0d}' => Some((2i64, 0i32)),
        '\u{5f0e}' => Some((3i64, 0i32)),
        '\u{5f10}' => Some((2i64, 0i32)),
        '\u{62d0}' => Some((7i64, 0i32)),
        '\u{62fe}' => Some((1i64, 1i32)),
        '\u{634c}' => Some((8i64, 0i32)),
        '\u{67d2}' => Some((7i64, 0i32)),
        '\u{6d1e}' => Some((0i64, 0i32)),
        '\u{6f06}' => Some((7i64, 0i32)),
        '\u{7396}' => Some((9i64, 0i32)),
        '\u{767e}' => Some((1i64, 2i32)),
        '\u{7695}' => Some((2i64, 2i32)),
        '\u{79ed}' => Some((1i64, 9i32)),
        '\u{8086}' => Some((4i64, 0i32)),
        '\u{842c}' => Some((1i64, 4i32)),
        '\u{8cae}' => Some((2i64, 0i32)),
        '\u{8cb3}' => Some((2i64, 0i32)),
        '\u{8d30}' => Some((2i64, 0i32)),
        '\u{920e}' => Some((9i64, 0i32)),
        '\u{94a9}' => Some((9i64, 0i32)),
        '\u{9621}' => Some((1i64, 3i32)),
        '\u{9646}' => Some((6i64, 0i32)),
        '\u{964c}' => Some((1i64, 2i32)),
        '\u{9678}' => Some((6i64, 0i32)),
        '\u{96f6}' => Some((0i64, 0i32)),
        '\u{a6e6}' => Some((1i64, 0i32)),
        '\u{a6e7}' => Some((2i64, 0i32)),
        '\u{a6e8}' => Some((3i64, 0i32)),
        '\u{a6e9}' => Some((4i64, 0i32)),
        '\u{a6ea}' => Some((5i64, 0i32)),
        '\u{a6eb}' => Some((6i64, 0i32)),
        '\u{a6ec}' => Some((7i64, 0i32)),
        '\u{a6ed}' => Some((8i64, 0i32)),
        '\u{a6ee}' => Some((9i64, 0i32)),
        '\u{a6ef}' => Some((0i64, 0i32)),
        '\u{a830}' => Some((25i64, -2i32)),
        '\u{a831}' => Some((5i64, -1i32)),
        '\u{a832}' => Some((75i64, -2i32)),
        '\u{a833}' => Some((625i64, -4i32)),
        '\u{a834}' => Some((125i64, -3i32)),
        _ => None,
    }
}

fn unicode_numeric_part9(c: char) -> (r: Option<(i64, i32)>)
    ensures
        r == spec_unicode_numeric_part9(c),
{
    match c {
        '\u{a835}' => Some((1875i64, -4i32)),
        '\u{f96b}' => Some((3i64, 0i32)),
        '\u{f973}' => Some((1i64, 1i32)),
        '\u{f978}' => Some((2i64, 0i32)),
        '\u{f9b2}' => Some((0i64, 0i32)),
        '\u{f9d1}' => Some((6i64, 0i32)),
        '\u{f9d3}' => Some((6i64, 0i32)),
        '\u{f9fd}' => Some((1i64, 1i32)),
        '\u{10107}' => Some((1i64, 0i32)),
        '\u{10108}' => Some((2i64, 0i32)),
        '\u{10109}' => Some((3i64, 0i32)),
        '\u{1010a}' => Some((4i64, 0i32)),
        '\u{1010b}' => Some((5i64, 0i32)),
        '\u{1010c}' => Some((6i64, 0i32)),
        '\u{1010d}' => Some((7i64, 0i32)),
        '\u{1010e}' => Some((8i64, 0i32)),
        '\u{1010f}' => Some((9i64, 0i32)),
        '\u{10110}' => Some((1i64, 1i32)),
        '\u{10111}' => Some((2i64, 1i32)),
        '\u{10112}' => Some((3i64, 1i32)),
        '\u{10113}' => Some((4i64, 1i32)),
        '\u{10114}' => Some((5i64, 1i32)),
        '\u{10115}' => Some((6i64, 1i32)),
        '\u{10116}' => Some((7i64, 1i32)),
        '\u{10117}' => Some((8i64, 1i32)),
        '\u{10118}' => Some((9i64, 1i32)),
        '\u{10119}' => Some((1i64, 2i32)),
        '\u{1011a}' => Some((2i64, 2i32)),
        '\u{1011b}' => Some((3i64, 2i32)),
        '\u{1011c}' => Some((4i64, 2i32)),
        '\u{1011d}' => Some((5i64, 2i32)),
        '\u{1011e}' => Some((6i64, 2i32)),
        '\u{1011f}' => Some((7i64, 2i32)),
        '\u{10120}' => Some((8i64, 2i32)),
        '\u{10121}' => Some((9i64, 2i32)),
        '\u{10122}' => Some((1i64, 3i32)),
        '\u{10123}' => Some((2i64, 3i32)),
        '\u{10124}' => Some((3i64, 3i32)),
        '\u{10125}' => Some((4i64, 3i32)),
        '\u{10126}' => Some((5i64, 3i32)),
        '\u{10127}' => Some((6i64, 3i32)),
        '\u{10128}' => Some((7i64, 3i32)),
        '\u{10129}' => Some((8i64, 3i32)),
        '\u{1012a}' => Some((9i64, 3i32)),
        '\u{1012b}' => Some((1i64, 4i32)),
        '\u{1012c}' => Some((2i64, 4i32)),
        '\u{1012d}' => Some((3i64, 4i32)),
        '\u{1012e}' => Some((4i64, 4i32)),
        _ => None,
    }
}

fn unicode_numeric_part10(c: char) -> (r: Option<(i64, i32)>)
    ensures
        r == spec_unicode_numeric_part10(c),
{
    match c {
        '\u{1012f}' => Some((5i64, 4i32)),
        '\u{10130}' => Some((6i64, 4i32)),
        '\u{10131}' => Some((7i64, 4i32)),
        '\u{10132}' => Some((8i64, 4i32)),
        '\u{10133}' => Some((9i64, 4i32)),
        '\u{10140}' => Some((25i64, -2i32)),
        '\u{10141}' => Some((5i64, -1i32)),
        '\u{10142}' => Some((1i64, 0i32)),
        '\u{10143}' => Some((5i64, 0i32)),
        '\u{10144}' => Some((5i64, 1i32)),
        '\u{10145}' => Some((5i64, 2i32)),
        '\u{10146}' => Some((5i64, 3i32)),
        '\u{10147}' => Some((5i64, 4i32)),
        '\u{10148}' => Some((5i64, 0i32)),
        '\u{10149}' => Some((1i64, 1i32)),
        '\u{1014a}' => Some((5i64, 1i32)),
        '\u{1014b}' => Some((1i64, 2i32)),
        '\u{1014c}' => Some((5i64, 2i32)),
        '\u{1014d}' => Some((1i64, 3i32)),
        '\u{1014e}' => Some((5i64, 3i32)),
        '\u{1014f}' => Some((5i64, 0i32)),
        '\u{10150}' => Some((1i64, 1i32)),
        '\u{10151}' => Some((5i64, 1i32)),
        '\u{10152}' => Some((1i64, 2i32)),
        '\u{10153}' => Some((5i64, 2i32)),
        '\u{10154}' => Some((1i64, 3i32)),
        '\u{10155}' => Some((1i64, 4i32)),
        '\u{10156}' => Some((5i64, 4i32)),
        '\u{10157}' => Some((1i64, 1i32)),
        '\u{10158}' => Some((1i64, 0i32)),
        '\u{10159}' => Some((1i64, 0i32)),
        '\u{1015a}' => Some((1i64, 0i32)),
        '\u{1015b}' => Some((2i64, 0i32)),
        '\u{1015c}' => Some((2i64, 0i32)),
        '\u{1015d}' => Some((2i64, 0i32)),
        '\u{1015e}' => Some((2i64, 0i32)),
        '\u{1015f}' => Some((5i64, 0i32)),
        '\u{10160}' => Some((1i64, 1i32)),
        '\u{10161}' => Some((1i64, 1i32)),
        '\u{10162}' => Some((1i64, 1i32)),
        '\u{10163}' => Some((1i64, 1i32)),
        '\u{10164}' => Some((1i64, 1i32)),
        '\u{10165}' => Some((3i64, 1i32)),
        '\u{10166}' => Some((5i64, 1i32)),
        '\u{10167}' => Some((5i64, 1i32)),
        '\u{10168}' => Some((5i64, 1i32)),
        '\u{10169}' => Some((5i64, 1i32)),
        '\u{1016a}' => Some((1i64, 2i32)),
        _ => None,
    }
}

fn unicode_numeric_part11(c: char) -> (r: Option<(i64, i32)>)
    ensures
        r == spec_unicode_numeric_part11(c),
{
    match c {
        '\u{1016b}' => Some((3i64, 2i32)),
        '\u{1016c}' => Some((5i64, 2i32)),
        '\u{1016d}' => Some((5i64, 2i32)),
        '\u{1016e}' => Some((5i64, 2i32)),
        '\u{1016f}' => Some((5i64, 2i32)),
        '\u{10170}' => Some((5i64, 2i32)),
        '\u{10171}' => Some((1i64, 3i32)),
        '\u{10172}' => Some((5i64, 3i32)),
        '\u{10173}' => Some((5i64, 0i32)),
        '\u{10174}' => Some((5i64, 1i32)),
        '\u{10175}' => Some((5i64, -1i32)),
        '\u{10176}' => Some((5i64, -1i32)),
        '\u{10177}' => Some((6666666666666666i64, -16i32)),
        '\u{10178}' => Some((75i64, -2i32)),
        '\u{1018a}' => Some((0i64, 0i32)),
        '\u{1018b}' => Some((25i64, -2i32)),
        '\u{102e1}' => Some((1i64, 0i32)),
        '\u{102e2}' => Some((2i64, 0i32)),
        '\u{102e3}' => Some((3i64, 0i32)),
        '\u{102e4}' => Some((4i64, 0i32)),
        '\u{102e5}' => Some((5i64, 0i32)),
        '\u{102e6}' => Some((6i64, 0i32)),
        '\u{102e7}' => Some((7i64, 0i32)),
        '\u{102e8}' => Some((8i64, 0i32)),
        '\u{102e9}' => Some((9i64, 0i32)),
        '\u{102ea}' => Some((1i64, 1i32)),
        '\u{102eb}' => Some((2i64, 1i32)),
        '\u{102ec}' => Some((3i64, 1i32)),
        '\u{102ed}' => Some((4i64, 1i32)),
        '\u{102ee}' => Some((5i64, 1i32)),
        '\u{102ef}' => Some((6i64, 1i32)),
        '\u{102f0}' => Some((7i64, 1i32)),
        '\u{102f1}' => Some((8i64, 1i32)),
        '\u{102f2}' => Some((9i64, 1i32)),
        '\u{102f3}' => Some((1i64, 2i32)),
        '\u{102f4}' => Some((2i64, 2i32)),
        '\u{102f5}' => Some((3i64, 2i32)),
        '\u{102f6}' => Some((4i64, 2i32)),
        '\u{102f7}' => Some((5i64, 2i32)),
        '\u{102f8}' => Some((6i64, 2i32)),
        '\u{102f9}' => Some((7i64, 2i32)),
        '\u{102fa}' => Some((8i64, 2i32)),
        '\u{102fb}' => Some((9i64, 2i32)),
        '\u{10320}' => Some((1i64, 0i32)),
        '\u{10321}' => Some((5i64, 0i32)),
        '\u{10322}' => Some((1i64, 1i32)),
        '\u{10323}' => Some((5i64, 1i32)),
        '\u{10341}' => Some((9i64, 1i32)),
        _ => None,
    }
}

fn unicode_numeric_part12(c: char) -> (r: Option<(i64, i32)>)
    ensures
        r == spec_unicode_numeric_part12(c),
{
    match c {
        '\u{1034a}' => Some((9i64, 2i32)),
        '\u{103d1}' => Some((1i64, 0i32)),
        '\u{103d2}' => Some((2i64, 0i32)),
        '\u{103d3}' => Some((1i64, 1i32)),
        '\u{103d4}' => Some((2i64, 1i32)),
        '\u{103d5}' => Some((1i64, 2i32)),
        '\u{10858}' => Some((1i64, 0i32)),
        '\u{10859}' => Some((2i64, 0i32)),
        '\u{1085a}' => Some((3i64, 0i32)),
        '\u{1085b}' => Some((1i64, 1i32)),
        '\u{1085c}' => Some((2i64, 1i32)),
        '\u{1085d}' => Some((1i64, 2i32)),
        '\u{1085e}' => Some((1i64, 3i32)),
        '\u{1085f}' => Some((1i64, 4i32)),
        '\u{10879}' => Some((1i64, 0i32)),
        '\u{1087a}' => Some((2i64, 0i32)),
        '\u{1087b}' => Some((3i64, 0i32)),
        '\u{1087c}' => Some((4i64, 0i32)),
        '\u{1087d}' => Some((5i64, 0i32)),
        '\u{1087e}' => Some((1i64, 1i32)),
        '\u{1087f}' => Some((2i64, 1i32)),
        '\u{108a7}' => Some((1i64, 0i32)),
        '\u{108a8}' => Some((2i64, 0i32)),
        '\u{108a9}' => Some((3i64, 0i32)),
        '\u{108aa}' => Some((4i64, 0i32)),
        '\u{108ab}' => Some((4i64, 0i32)),
        '\u{108ac}' => Some((5i64, 0i32)),
        '\u{108ad}' => Some((1i64, 1i32)),
        '\u{108ae}' => Some((2i64, 1i32)),
        '\u{108af}' => Some((1i64, 2i32)),
        '\u{108fb}' => Some((1i64, 0i32)),
        '\u{108fc}' => Some((5i64, 0i32)),
        '\u{108fd}' => Some((1i64, 1i32)),
        '\u{108fe}' => Some((2i64, 1i32)),
        '\u{108ff}' => Some((1i64, 2i32)),
        '\u{10916}' => Some((1i64, 0i32)),
        '\u{10917}' => Some((1i64, 1i32)),
        '\u{10918}' => Some((2i64, 1i32)),
        '\u{10919}' => Some((1i64, 2i32)),
        '\u{1091a}' => Some((2i64, 0i32)),
        '\u{1091b}' => Some((3i64, 0i32)),
        '\u{109bc}' => Some((9166666666666666i64, -16i32)),
        '\u{109bd}' => Some((5i64, -1i32)),
        '\u{109c0}' => Some((1i64, 0i32)),
        '\u{109c1}' => Some((2i64, 0i32)),
        '\u{109c2}' => Some((3i64, 0i32)),
        '\u{109c3}' => Some((4i64, 0i32)),
        '\u{109c4}' => Some((5i64, 0i32)),
        _ => None,
    }
}

fn unicode_numeric_part13(c: char) -> (r: Option<(i64, i32)>)
    ensures
        r == spec_unicode_numeric_part13(c),
{
    match c {
        '\u{109c5}' => Some((6i64, 0i32)),
        '\u{109c6}' => Some((7i64, 0i32)),
        '\u{109c7}' => Some((8i64, 0i32)),
        '\u{109c8}' => Some((9i64, 0i32)),
        '\u{109c9}' => Some((1i64, 1i32)),
        '\u{109ca}' => Some((2i64, 1i32)),
        '\u{109cb}' => Some((3i64, 1i32)),
        '\u{109cc}' => Some((4i64, 1i32)),
        '\u{109cd}' => Some((5i64, 1i32)),
        '\u{109ce}' => Some((6i64, 1i32)),
        '\u{109cf}' => Some((7i64, 1i32)),
        '\u{109d2}' => Some((1i64, 2i32)),
        '\u{109d3}' => Some((2i64, 2i32)),
        '\u{109d4}' => Some((3i64, 2i32)),
        '\u{109d5}' => Some((4i64, 2i32)),
        '\u{109d6}' => Some((5i64, 2i32)),
        '\u{109d7}' => Some((6i64, 2i32)),
        '\u{109d8}' => Some((7i64, 2i32)),
        '\u{109d9}' => Some((8i64, 2i32)),
        '\u{109da}' => Some((9i64, 2i32)),
        '\u{109db}' => Some((1i64, 3i32)),
        '\u{109dc}' => Some((2i64, 3i32)),
        '\u{109dd}' => Some((3i64, 3i32)),
        '\u{109de}' => Some((4i64, 3i32)),
        '\u{109df}' => Some((5i64, 3i32)),
        '\u{109e0}' => Some((6i64, 3i32)),
        '\u{109e1}' => Some((7i64, 3i32)),
        '\u{109e2}' => Some((8i64, 3i32)),
        '\u{109e3}' => Some((9i64, 3i32)),
        '\u{109e4}' => Some((1i64, 4i32)),
        '\u{109e5}' => Some((2i64, 4i32)),
        '\u{109e6}' => Some((3i64, 4i32)),
        '\u{109e7}' => Some((4i64, 4i32)),
        '\u{109e8}' => Some((5i64, 4i32)),
        '\u{109e9}' => Some((6i64, 4i32)),
        '\u{109ea}' => Some((7i64, 4i32)),
        '\u{109eb}' => Some((8i64, 4i32)),
        '\u{109ec}' => Some((9i64, 4i32)),
        '\u{109ed}' => Some((1i64, 5i32)),
        '\u{109ee}' => Some((2i64, 5i32)),
        '\u{109ef}' => Some((3i64, 5i32)),
        '\u{109f0}' => Some((4i64, 5i32)),
        '\u{109f1}' => Some((5i64, 5i32)),
        '\u{109f2}' => Some((6i64, 5i32)),
        '\u{109f3}' => Some((7i64, 5i32)),
        '\u{109f4}' => Some((8i64, 5i32)),
        '\u{109f5}' => Some((9i64, 5i32)),
        '\u{109f6}' => Some((8333333333333333i64, -17i32)),
        _ => None,
    }
}

fn unicode_numeric_part14(c: char) -> (r: Option<(i64, i32)>)
    ensures
        r == spec_unicode_numeric_part14(c),
{
    match c {
        '\u{109f7}' => Some((16666666666666666i64, -17i32)),
        '\u{109f8}' => Some((25i64, -2i32)),
        '\u{109f9}' => Some((3333333333333333i64, -16i32)),
        '\u{109fa}' => Some((4166666666666667i64, -16i32)),
        '\u{109fb}' => Some((5i64, -1i32)),
        '\u{109fc}' => Some((5833333333333334i64, -16i32)),
        '\u{109fd}' => Some((6666666666666666i64, -16i32)),
        '\u{109fe}' => Some((75i64, -2i32)),
        '\u{109ff}' => Some((8333333333333334i64, -16i32)),
        '\u{10a40}' => Some((1i64, 0i32)),
        '\u{10a41}' => Some((2i64, 0i32)),
        '\u{10a42}' => Some((3i64, 0i32)),
        '\u{10a43}' => Some((4i64, 0i32)),
        '\u{10a44}' => Some((1i64, 1i32)),
        '\u{10a45}' => Some((2i64, 1i32)),
        '\u{10a46}' => Some((1i64, 2i32)),
        '\u{10a47}' => Some((1i64, 3i32)),
        '\u{10a48}' => Some((5i64, -1i32)),
        '\u{10a7d}' => Some((1i64, 0i32)),
        '\u{10a7e}' => Some((5i64, 1i32)),
        '\u{10a9d}' => Some((1i64, 0i32)),
        '\u{10a9e}' => Some((1i64, 1i32)),
        '\u{10a9f}' => Some((2i64, 1i32)),
        '\u{10aeb}' => Some((1i64, 0i32)),
        '\u{10aec}' => Some((5i64, 0i32)),
        '\u{10aed}' => Some((1i64, 1i32)),
        '\u{10aee}' => Some((2i64, 1i32)),
        '\u{10aef}' => Some((1i64, 2i32)),
        '\u{10b58}' => Some((1i64, 0i32)),
        '\u{10b59}' => Some((2i64, 0i32)),
        '\u{10b5a}' => Some((3i64, 0i32)),
        '\u{10b5b}' => Some((4i64, 0i32)),
        '\u{10b5c}' => Some((1i64, 1i32)),
        '\u{10b5d}' => Some((2i64, 1i32)),
        '\u{10b5e}' => Some((1i64, 2i32)),
        '\u{10b5f}' => Some((1i64, 3i32)),
        '\u{10b78}' => Some((1i64, 0i32)),
        '\u{10b79}' => Some((2i64, 0i32)),
        '\u{10b7a}' => Some((3i64, 0i32)),
        '\u{10b7b}' => Some((4i64, 0i32)),
        '\u{10b7c}' => Some((1i64, 1i32)),
        '\u{10b7d}' => Some((2i64, 1i32)),
        '\u{10b7e}' => Some((1i64, 2i32)),
        '\u{10b7f}' => Some((1i64, 3i32)),
        '\u{10ba9}' => Some((1i64, 0i32)),
        '\u{10baa}' => Some((2i64, 0i32)),
        '\u{10bab}' => Some((3i64, 0i32)),
        '\u{10bac}' => Some((4i64, 0i32)),
        _ => None,
    }
}

fn unicode_numeric_part15(c: char) -> (r: Option<(i64, i32)>)
    ensures
        r == spec_unicode_numeric_part15(c),
{
    match c {
        '\u{10bad}' => Some((1i64, 1i32)),
        '\u{10bae}' => Some((2i64, 1i32)),
        '\u{10baf}' => Some((1i64, 2i32)),
        '\u{10cfa}' => Some((1i64, 0i32)),
        '\u{10cfb}' => Some((5i64, 0i32)),
        '\u{10cfc}' => Some((1i64, 1i32)),
        '\u{10cfd}' => Some((5i64, 1i32)),
        '\u{10cfe}' => Some((1i64, 2i32)),
        '\u{10cff}' => Some((1i64, 3i32)),
        '\u{10e60}' => Some((1i64, 0i32)),
        '\u{10e61}' => Some((2i64, 0i32)),
        '\u{10e62}' => Some((3i64, 0i32)),
        '\u{10e63}' => Some((4i64, 0i32)),
        '\u{10e64}' => Some((5i64, 0i32)),
        '\u{10e65}' => Some((6i64, 0i32)),
        '\u{10e66}' => Some((7i64, 0i32)),
        '\u{10e67}' => Some((8i64, 0i32)),
        '\u{10e68}' => Some((9i64, 0i32)),
        '\u{10e69}' => Some((1i64, 1i32)),
        '\u{10e6a}' => Some((2i64, 1i32)),
        '\u{10e6b}' => Some((3i64, 1i32)),
        '\u{10e6c}' => Some((4i64, 1i32)),
        '\u{10e6d}' => Some((5i64, 1i32)),
        '\u{10e6e}' => Some((6i64, 1i32)),
        '\u{10e6f}' => Some((7i64, 1i32)),
        '\u{10e70}' => Some((8i64, 1i32)),
        '\u{10e71}' => Some((9i64, 1i32)),
        '\u{10e72}' => Some((1i64, 2i32)),
        '\u{10e73}' => Some((2i64, 2i32)),
        '\u{10e74}' => Some((3i64, 2i32)),
        '\u{10e75}' => Some((4i64, 2i32)),
        '\u{10e76}' => Some((5i64, 2i32)),
        '\u{10e77}' => Some((6i64, 2i32)),
        '\u{10e78}' => Some((7i64, 2i32)),
        '\u{10e79}' => Some((8i64, 2i32)),
        '\u{10e7a}' => Some((9i64, 2i32)),
        '\u{10e7b}' => Some((5i64, -1i32)),
        '\u{10e7c}' => Some((25i64, -2i32)),
        '\u{10e7d}' => Some((3333333333333333i64, -16i32)),
        '\u{10e7e}' => Some((6666666666666666i64, -16i32)),
        '\u{10f1d}' => Some((1i64, 0i32)),
        '\u{10f1e}' => Some((2i64, 0i32)),
        '\u{10f1f}' => Some((3i64, 0i32)),
        '\u{10f20}' => Some((4i64, 0i32)),
        '\u{10f21}' => Some((5i64, 0i32)),
        '\u{10f22}' => Some((1i64, 1i32)),
        '\u{10f23}' => Some((2i64, 1i32)),
        '\u{10f24}' => Some((3i64, 1i32)),
        _ => None,
    }
}

fn unicode_numeric_part16(c: char) -> (r: Option<(i64, i32)>)
    ensures
        r == spec_unicode_numeric_part16(c),
{
    match c {
        '\u{10f25}' => Some((1i64, 2i32)),
        '\u{10f26}' => Some((5i64, -1i32)),
        '\u{10f51}' => Some((1i64, 0i32)),
        '\u{10f52}' => Some((1i64, 1i32)),
        '\u{10f53}' => Some((2i64, 1i32)),
        '\u{10f54}' => Some((1i64, 2i32)),
        '\u{10fc5}' => Some((1i64, 0i32)),
        '\u{10fc6}' => Some((2i64, 0i32)),
        '\u{10fc7}' => Some((3i64, 0i32)),
        '\u{10fc8}' => Some((4i64, 0i32)),
        '\u{10fc9}' => Some((1i64, 1i32)),
        '\u{10fca}' => Some((2i64, 1i32)),
        '\u{10fcb}' => Some((1i64, 2i32)),
        '\u{11052}' => Some((1i64, 0i32)),
        '\u{11053}' => Some((2i64, 0i32)),
        '\u{11054}' => Some((3i64, 0i32)),
        '\u{11055}' => Some((4i64, 0i32)),
        '\u{11056}' => Some((5i64, 0i32)),
        '\u{11057}' => Some((6i64, 0i32)),
        '\u{11058}' => Some((7i64, 0i32)),
        '\u{11059}' => Some((8i64, 0i32)),
        '\u{1105a}' => Some((9i64, 0i32)),
        '\u{1105b}' => Some((1i64, 1i32)),
        '\u{1105c}' => Some((2i64, 1i32)),
        '\u{1105d}' => Some((3i64, 1i32)),
        '\u{1105e}' => Some((4i64, 1i32)),
        '\u{1105f}' => Some((5i64, 1i32)),
        '\u{11060}' => Some((6i64, 1i32)),
        '\u{11061}' => Some((7i64, 1i32)),
        '\u{11062}' => Some((8i64, 1i32)),
        '\u{11063}' => Some((9i64, 1i32)),
        '\u{11064}' => Some((1i64, 2i32)),
        '\u{11065}' => Some((1i64, 3i32)),
        '\u{111e1}' => Some((1i64, 0i32)),
        '\u{111e2}' => Some((2i64, 0i32)),
        '\u{111e3}' => Some((3i64, 0i32)),
        '\u{111e4}' => Some((4i64, 0i32)),
        '\u{111e5}' => Some((5i64, 0i32)),
        '\u{111e6}' => Some((6i64, 0i32)),
        '\u{111e7}' => Some((7i64, 0i32)),
        '\u{111e8}' => Some((8i64, 0i32)),
        '\u{111e9}' => Some((9i64, 0i32)),
        '\u{111ea}' => Some((1i64, 1i32)),
        '\u{111eb}' => Some((2i64, 1i32)),
        '\u{111ec}' => Some((3i64, 1i32)),
        '\u{111ed}' => Some((4i64, 1i32)),
        '\u{111ee}' => Some((5i64, 1i32)),
        '\u{111ef}' => Some((6i64, 1i32)),
        _ => None,
    }
}

fn unicode_numeric_part17(c: char) -> (r: Option<(i64, i32)>)
    ensures
        r == spec_unicode_numeric_part17(c),
{
    match c {
        '\u{111f0}' => Some((7i64, 1i32)),
        '\u{111f1}' => Some((8i64, 1i32)),
        '\u{111f2}' => Some((9i64, 1i32)),
        '\u{111f3}' => Some((1i64, 2i32)),
        '\u{111f4}' => Some((1i64, 3i32)),
        '\u{1173a}' => Some((1i64, 1i32)),
        '\u{1173b}' => Some((2i64, 1i32)),
        '\u{118ea}' => Some((1i64, 1i32)),
        '\u{118eb}' => Some((2i64, 1i32)),
        '\u{118ec}' => Some((3i64, 1i32)),
        '\u{118ed}' => Some((4i64, 1i32)),
        '\u{118ee}' => Some((5i64, 1i32)),
        '\u{118ef}' => Some((6i64, 1i32)),
        '\u{118f0}' => Some((7i64, 1i32)),
        '\u{118f1}' => Some((8i64, 1i32)),
        '\u{118f2}' => Some((9i64, 1i32)),
        '\u{11c5a}' => Some((1i64, 0i32)),
        '\u{11c5b}' => Some((2i64, 0i32)),
        '\u{11c5c}' => Some((3i64, 0i32)),
        '\u{11c5d}' => Some((4i64, 0i32)),
        '\u{11c5e}' => Some((5i64, 0i32)),
        '\u{11c5f}' => Some((6i64, 0i32)),
        '\u{11c60}' => Some((7i64, 0i32)),
        '\u{11c61}' => Some((8i64, 0i32)),
        '\u{11c62}' => Some((9i64, 0i32)),
        '\u{11c63}' => Some((1i64, 1i32)),
        '\u{11c64}' => Some((2i64, 1i32)),
        '\u{11c65}' => Some((3i64, 1i32)),
        '\u{11c66}' => Some((4i64, 1i32)),
        '\u{11c67}' => Some((5i64, 1i32)),
        '\u{11c68}' => Some((6i64, 1i32)),
        '\u{11c69}' => Some((7i64, 1i32)),
        '\u{11c6a}' => Some((8i64, 1i32)),
        '\u{11c6b}' => Some((9i64, 1i32)),
        '\u{11c6c}' => Some((1i64, 2i32)),
        '\u{11fc0}' => Some((3125i64, -6i32)),
        '\u{11fc1}' => Some((625i64, -5i32)),
        '\u{11fc2}' => Some((125i64, -4i32)),
        '\u{11fc3}' => Some((15625i64, -6i32)),
        '\u{11fc4}' => Some((25i64, -3i32)),
        '\u{11fc5}' => Some((3125i64, -5i32)),
        '\u{11fc6}' => Some((375i64, -4i32)),
        '\u{11fc7}' => Some((46875i64, -6i32)),
        '\u{11fc8}' => Some((5i64, -2i32)),
        '\u{11fc9}' => Some((625i64, -4i32)),
        '\u{11fca}' => Some((625i64, -4i32)),
        '\u{11fcb}' => Some((1i64, -1i32)),
        '\u{11fcc}' => Some((125i64, -3i32)),
        _ => None,
    }
}

fn unicode_numeric_part18(c: char) -> (r: Option<(i64, i32)>)
    ensures
        r == spec_unicode_numeric_part18(c),
{
    match c {
        '\u{11fcd}' => Some((15i64, -2i32)),
        '\u{11fce}' => Some((1875i64, -4i32)),
        '\u{11fcf}' => Some((2i64, -1i32)),
        '\u{11fd0}' => Some((25i64, -2i32)),
        '\u{11fd1}' => Some((5i64, -1i32)),
        '\u{11fd2}' => Some((5i64, -1i32)),
        '\u{11fd3}' => Some((75i64, -2i32)),
        '\u{11fd4}' => Some((3125i64, -6i32)),
        '\u{12400}' => Some((2i64, 0i32)),
        '\u{12401}' => Some((3i64, 0i32)),
        '\u{12402}' => Some((4i64, 0i32)),
        '\u{12403}' => Some((5i64, 0i32)),
        '\u{12404}' => Some((6i64, 0i32)),
        '\u{12405}' => Some((7i64, 0i32)),
        '\u{12406}' => Some((8i64, 0i32)),
        '\u{12407}' => Some((9i64, 0i32)),
        '\u{12408}' => Some((3i64, 0i32)),
        '\u{12409}' => Some((4i64, 0i32)),
        '\u{1240a}' => Some((5i64, 0i32)),
        '\u{1240b}' => Some((6i64, 0i32)),
        '\u{1240c}' => Some((7i64, 0i32)),
        '\u{1240d}' => Some((8i64, 0i32)),
        '\u{1240e}' => Some((9i64, 0i32)),
        '\u{1240f}' => Some((4i64, 0i32)),
        '\u{12410}' => Some((5i64, 0i32)),
        '\u{12411}' => Some((6i64, 0i32)),
        '\u{12412}' => Some((7i64, 0i32)),
        '\u{12413}' => Some((8i64, 0i32)),
        '\u{12414}' => Some((9i64, 0i32)),
        '\u{12415}' => Some((1i64, 0i32)),
        '\u{12416}' => Some((2i64, 0i32)),
        '\u{12417}' => Some((3i64, 0i32)),
        '\u{12418}' => Some((4i64, 0i32)),
        '\u{12419}' => Some((5i64, 0i32)),
        '\u{1241a}' => Some((6i64, 0i32)),
        '\u{1241b}' => Some((7i64, 0i32)),
        '\u{1241c}' => Some((8i64, 0i32)),
        '\u{1241d}' => Some((9i64, 0i32)),
        '\u{1241e}' => Some((1i64, 0i32)),
        '\u{1241f}' => Some((2i64, 0i32)),
        '\u{12420}' => Some((3i64, 0i32)),
        '\u{12421}' => Some((4i64, 0i32)),
        '\u{12422}' => Some((5i64, 0i32)),
        '\u{12423}' => Some((2i64, 0i32)),
        '\u{12424}' => Some((3i64, 0i32)),
        '\u{12425}' => Some((3i64, 0i32)),
        '\u{12426}' => Some((4i64, 0i32)),
        '\u{12427}' => Some((5i64, 0i32)),
        _ => None,
    }
}

fn unicode_numeric_part19(c: char) -> (r: Option<(i64, i32)>)
    ensures
        r == spec_unicode_numeric_part19(c),
{
    match c {
        '\u{12428}' => Some((6i64, 0i32)),
        '\u{12429}' => Some((7i64, 0i32)),
        '\u{1242a}' => Some((8i64, 0i32)),
        '\u{1242b}' => Some((9i64, 0i32)),
        '\u{1242c}' => Some((1i64, 0i32)),
        '\u{1242d}' => Some((2i64, 0i32)),
        '\u{1242e}' => Some((3i64, 0i32)),
        '\u{1242f}' => Some((3i64, 0i32)),
        '\u{12430}' => Some((4i64, 0i32)),
        '\u{12431}' => Some((5i64, 0i32)),
        '\u{12432}' => Some((216i64, 3i32)),
        '\u{12433}' => Some((432i64, 3i32)),
        '\u{12434}' => Some((1i64, 0i32)),
        '\u{12435}' => Some((2i64, 0i32)),
        '\u{12436}' => Some((3i64, 0i32)),
        '\u{12437}' => Some((3i64, 0i32)),
        '\u{12438}' => Some((4i64, 0i32)),
        '\u{12439}' => Some((5i64, 0i32)),
        '\u{1243a}' => Some((3i64, 0i32)),
        '\u{1243b}' => Some((3i64, 0i32)),
        '\u{1243c}' => Some((4i64, 0i32)),
        '\u{1243d}' => Some((4i64, 0i32)),
        '\u{1243e}' => Some((4i64, 0i32)),
        '\u{1243f}' => Some((4i64, 0i32)),
        '\u{12440}' => Some((6i64, 0i32)),
        '\u{12441}' => Some((7i64, 0i32)),
        '\u{12442}' => Some((7i64, 0i32)),
        '\u{12443}' => Some((7i64, 0i32)),
        '\u{12444}' => Some((8i64, 0i32)),
        '\u{12445}' => Some((8i64, 0i32)),
        '\u{12446}' => Some((9i64, 0i32)),
        '\u{12447}' => Some((9i64, 0i32)),
        '\u{12448}' => Some((9i64, 0i32)),
        '\u{12449}' => Some((9i64, 0i32)),
        '\u{1244a}' => Some((2i64, 0i32)),
        '\u{1244b}' => Some((3i64, 0i32)),
        '\u{1244c}' => Some((4i64, 0i32)),
        '\u{1244d}' => Some((5i64, 0i32)),
        '\u{1244e}' => Some((6i64, 0i32)),
        '\u{1244f}' => Some((1i64, 0i32)),
        '\u{12450}' => Some((2i64, 0i32)),
        '\u{12451}' => Some((3i64, 0i32)),
        '\u{12452}' => Some((4i64, 0i32)),
        '\u{12453}' => Some((4i64, 0i32)),
        '\u{12454}' => Some((5i64, 0i32)),
        '\u{12455}' => Some((5i64, 0i32)),
        '\u{12456}' => Some((2i64, 0i32)),
        '\u{12457}' => Some((3i64, 0i32)),
        _ => None,
    }
}

fn unicode_numeric_part20(c: char) -> (r: Option<(i64, i32)>)
    ensures
        r == spec_unicode_numeric_part20(c),
{
    match c {
        '\u{12458}' => Some((1i64, 0i32)),
        '\u{12459}' => Some((2i64, 0i32)),
        '\u{1245a}' => Some((3333333333333333i64, -16i32)),
        '\u{1245b}' => Some((6666666666666666i64, -16i32)),
        '\u{1245c}' => Some((8333333333333334i64, -16i32)),
        '\u{1245d}' => Some((3333333333333333i64, -16i32)),
        '\u{1245e}' => Some((6666666666666666i64, -16i32)),
        '\u{1245f}' => Some((125i64, -3i32)),
        '\u{12460}' => Some((25i64, -2i32)),
        '\u{12461}' => Some((16666666666666666i64, -17i32)),
        '\u{12462}' => Some((25i64, -2i32)),
        '\u{12463}' => Some((25i64, -2i32)),
        '\u{12464}' => Some((5i64, -1i32)),
        '\u{12465}' => Some((3333333333333333i64, -16i32)),
        '\u{12466}' => Some((6666666666666666i64, -16i32)),
        '\u{12467}' => Some((4i64, 1i32)),
        '\u{12468}' => Some((5i64, 1i32)),
        '\u{12469}' => Some((4i64, 0i32)),
        '\u{1246a}' => Some((5i64, 0i32)),
        '\u{1246b}' => Some((6i64, 0i32)),
        '\u{1246c}' => Some((7i64, 0i32)),
        '\u{1246d}' => Some((8i64, 0i32)),
        '\u{1246e}' => Some((9i64, 0i32)),
        '\u{16b5b}' => Some((1i64, 1i32)),
        '\u{16b5c}' => Some((1i64, 2i32)),
        '\u{16b5d}' => Some((1i64, 4i32)),
        '\u{16b5e}' => Some((1i64, 6i32)),
        '\u{16b5f}' => Some((1i64, 8i32)),
        '\u{16b60}' => Some((1i64, 10i32)),
        '\u{16b61}' => Some((1i64, 12i32)),
        '\u{16e80}' => Some((0i64, 0i32)),
        '\u{16e81}' => Some((1i64, 0i32)),
        '\u{16e82}' => Some((2i64, 0i32)),
        '\u{16e83}' => Some((3i64, 0i32)),
        '\u{16e84}' => Some((4i64, 0i32)),
        '\u{16e85}' => Some((5i64, 0i32)),
        '\u{16e86}' => Some((6i64, 0i32)),
        '\u{16e87}' => Some((7i64, 0i32)),
        '\u{16e88}' => Some((8i64, 0i32)),
        '\u{16e89}' => Some((9i64, 0i32)),
        '\u{16e8a}' => Some((1i64, 1i32)),
        '\u{16e8b}' => Some((11i64, 0i32)),
        '\u{16e8c}' => Some((12i64, 0i32)),
        '\u{16e8d}' => Some((13i64, 0i32)),
        '\u{16e8e}' => Some((14i64, 0i32)),
        '\u{16e8f}' => Some((15i64, 0i32)),
        '\u{16e90}' => Some((16i64, 0i32)),
        '\u{16e91}' => Some((17i64, 0i32)),
        _ => None,
    }
}

fn unicode_numeric_part21(c: char) -> (r: Option<(i64, i32)>)
    ensures
        r == spec_unicode_numeric_part21(c),
{
    match c {
        '\u{16e92}' => Some((18i64, 0i32)),
        '\u{16e93}' => Some((19i64, 0i32)),
        '\u{16e94}' => Some((1i64, 0i32)),
        '\u{16e95}' => Some((2i64, 0i32)),
        '\u{16e96}' => Some((3i64, 0i32)),
        '\u{1d2c0}' => Some((0i64, 0i32)),
        '\u{1d2c1}' => Some((1i64, 0i32)),
        '\u{1d2c2}' => Some((2i64, 0i32)),
        '\u{1d2c3}' => Some((3i64, 0i32)),
        '\u{1d2c4}' => Some((4i64, 0i32)),
        '\u{1d2c5}' => Some((5i64, 0i32)),
        '\u{1d2c6}' => Some((6i64, 0i32)),
        '\u{1d2c7}' => Some((7i64, 0i32)),
        '\u{1d2c8}' => Some((8i64, 0i32)),
        '\u{1d2c9}' => Some((9i64, 0i32)),
        '\u{1d2ca}' => Some((1i64, 1i32)),
        '\u{1d2cb}' => Some((11i64, 0i32)),
        '\u{1d2cc}' => Some((12i64, 0i32)),
        '\u{1d2cd}' => Some((13i64, 0i32)),
        '\u{1d2ce}' => Some((14i64, 0i32)),
        '\u{1d2cf}' => Some((15i64, 0i32)),
        '\u{1d2d0}' => Some((16i64, 0i32)),
        '\u{1d2d1}' => Some((17i64, 0i32)),
        '\u{1d2d2}' => Some((18i64, 0i32)),
        '\u{1d2d3}' => Some((19i64, 0i32)),
        '\u{1d2e0}' => Some((0i64, 0i32)),
        '\u{1d2e1}' => Some((1i64, 0i32)),
        '\u{1d2e2}' => Some((2i64, 0i32)),
        '\u{1d2e3}' => Some((3i64, 0i32)),
        '\u{1d2e4}' => Some((4i64, 0i32)),
        '\u{1d2e5}' => Some((5i64, 0i32)),
        '\u{1d2e6}' => Some((6i64, 0i32)),
        '\u{1d2e7}' => Some((7i64, 0i32)),
        '\u{1d2e8}' => Some((8i64, 0i32)),
        '\u{1d2e9}' => Some((9i64, 0i32)),
        '\u{1d2ea}' => Some((1i64, 1i32)),
        '\u{1d2eb}' => Some((11i64, 0i32)),
        '\u{1d2ec}' => Some((12i64, 0i32)),
        '\u{1d2ed}' => Some((13i64, 0i32)),
        '\u{1d2ee}' => Some((14i64, 0i32)),
        '\u{1d2ef}' => Some((15i64, 0i32)),
        '\u{1d2f0}' => Some((16i64, 0i32)),
        '\u{1d2f1}' => Some((17i64, 0i32)),
        '\u{1d2f2}' => Some((18i64, 0i32)),
        '\u{1d2f3}' => Some((19i64, 0i32)),
        '\u{1d360}' => Some((1i64, 0i32)),
        '\u{1d361}' => Some((2i64, 0i32)),
        '\u{1d362}' => Some((3i64, 0i32)),
        _ => None,
    }
}

fn unicode_numeric_part22(c: char) -> (r: Option<(i64, i32)>)
    ensures
        r == spec_unicode_numeric_part22(c),
{
    match c {
        '\u{1d363}' => Some((4i64, 0i32)),
        '\u{1d364}' => Some((5i64, 0i32)),
        '\u{1d365}' => Some((6i64, 0i32)),
        '\u{1d366}' => Some((7i64, 0i32)),
        '\u{1d367}' => Some((8i64, 0i32)),
        '\u{1d368}' => Some((9i64, 0i32)),
        '\u{1d369}' => Some((1i64, 1i32)),
        '\u{1d36a}' => Some((2i64, 1i32)),
        '\u{1d36b}' => Some((3i64, 1i32)),
        '\u{1d36c}' => Some((4i64, 1i32)),
        '\u{1d36d}' => Some((5i64, 1i32)),
        '\u{1d36e}' => Some((6i64, 1i32)),
        '\u{1d36f}' => Some((7i64, 1i32)),
        '\u{1d370}' => Some((8i64, 1i32)),
        '\u{1d371}' => Some((9i64, 1i32)),
        '\u{1d372}' => Some((1i64, 0i32)),
        '\u{1d373}' => Some((2i64, 0i32)),
        '\u{1d374}' => Some((3i64, 0i32)),
        '\u{1d375}' => Some((4i64, 0i32)),
        '\u{1d376}' => Some((5i64, 0i32)),
        '\u{1d377}' => Some((1i64, 0i32)),
        '\u{1d378}' => Some((5i64, 0i32)),
        '\u{1e8c7}' => Some((1i64, 0i32)),
        '\u{1e8c8}' => Some((2i64, 0i32)),
        '\u{1e8c9}' => Some((3i64, 0i32)),
        '\u{1e8ca}' => Some((4i64, 0i32)),
        '\u{1e8cb}' => Some((5i64, 0i32)),
        '\u{1e8cc}' => Some((6i64, 0i32)),
        '\u{1e8cd}' => Some((7i64, 0i32)),
        '\u{1e8ce}' => Some((8i64, 0i32)),
        '\u{1e8cf}' => Some((9i64, 0i32)),
        '\u{1ec71}' => Some((1i64, 0i32)),
        '\u{1ec72}' => Some((2i64, 0i32)),
        '\u{1ec73}' => Some((3i64, 0i32)),
        '\u{1ec74}' => Some((4i64, 0i32)),
        '\u{1ec75}' => Some((5i64, 0i32)),
        '\u{1ec76}' => Some((6i64, 0i32)),
        '\u{1ec77}' => Some((7i64, 0i32)),
        '\u{1ec78}' => Some((8i64, 0i32)),
        '\u{1ec79}' => Some((9i64, 0i32)),
        '\u{1ec7a}' => Some((1i64, 1i32)),
        '\u{1ec7b}' => Some((2i64, 1i32)),
        '\u{1ec7c}' => Some((3i64, 1i32)),
        '\u{1ec7d}' => Some((4i64, 1i32)),
        '\u{1ec7e}' => Some((5i64, 1i32)),
        '\u{1ec7f}' => Some((6i64, 1i32)),
        '\u{1ec80}' => Some((7i64, 1i32)),
        '\u{1ec81}' => Some((8i64, 1i32)),
        _ => None,
    }
}

fn unicode_numeric_part23(c: char) -> (r: Option<(i64, i32)>)
    ensures
        r == spec_unicode_numeric_part23(c),
{
    match c {
        '\u{1ec82}' => Some((9i64, 1i32)),
        '\u{1ec83}' => Some((1i64, 2i32)),
        '\u{1ec84}' => Some((2i64, 2i32)),
        '\u{1ec85}' => Some((3i64, 2i32)),
        '\u{1ec86}' => Some((4i64, 2i32)),
        '\u{1ec87}' => Some((5i64, 2i32)),
        '\u{1ec88}' => Some((6i64, 2i32)),
        '\u{1ec89}' => Some((7i64, 2i32)),
        '\u{1ec8a}' => Some((8i64, 2i32)),
        '\u{1ec8b}' => Some((9i64, 2i32)),
        '\u{1ec8c}' => Some((1i64, 3i32)),
        '\u{1ec8d}' => Some((2i64, 3i32)),
        '\u{1ec8e}' => Some((3i64, 3i32)),
        '\u{1ec8f}' => Some((4i64, 3i32)),
        '\u{1ec90}' => Some((5i64, 3i32)),
        '\u{1ec91}' => Some((6i64, 3i32)),
        '\u{1ec92}' => Some((7i64, 3i32)),
        '\u{1ec93}' => Some((8i64, 3i32)),
        '\u{1ec94}' => Some((9i64, 3i32)),
        '\u{1ec95}' => Some((1i64, 4i32)),
        '\u{1ec96}' => Some((2i64, 4i32)),
        '\u{1ec97}' => Some((3i64, 4i32)),
        '\u{1ec98}' => Some((4i64, 4i32)),
        '\u{1ec99}' => Some((5i64, 4i32)),
        '\u{1ec9a}' => Some((6i64, 4i32)),
        '\u{1ec9b}' => Some((7i64, 4i32)),
        '\u{1ec9c}' => Some((8i64, 4i32)),
        '\u{1ec9d}' => Some((9i64, 4i32)),
        '\u{1ec9e}' => Some((1i64, 5i32)),
        '\u{1ec9f}' => Some((2i64, 5i32)),
        '\u{1eca0}' => Some((1i64, 5i32)),
        '\u{1eca1}' => Some((1i64, 7i32)),
        '\u{1eca2}' => Some((2i64, 7i32)),
        '\u{1eca3}' => Some((1i64, 0i32)),
        '\u{1eca4}' => Some((2i64, 0i32)),
        '\u{1eca5}' => Some((3i64, 0i32)),
        '\u{1eca6}' => Some((4i64, 0i32)),
        '\u{1eca7}' => Some((5i64, 0i32)),
        '\u{1eca8}' => Some((6i64, 0i32)),
        '\u{1eca9}' => Some((7i64, 0i32)),
        '\u{1ecaa}' => Some((8i64, 0i32)),
        '\u{1ecab}' => Some((9i64, 0i32)),
        '\u{1ecad}' => Some((25i64, -2i32)),
        '\u{1ecae}' => Some((5i64, -1i32)),
        '\u{1ecaf}' => Some((75i64, -2i32)),
        '\u{1ecb1}' => Some((1i64, 0i32)),
        '\u{1ecb2}' => Some((2i64, 0i32)),
        '\u{1ecb3}' => Some((1i64, 4i32)),
        _ => None,
    }
}

fn unicode_numeric_part24(c: char) -> (r: Option<(i64, i32)>)
    ensures
        r == spec_unicode_numeric_part24(c),
{
    match c {
        '\u{1ecb4}' => Some((1i64, 5i32)),
        '\u{1ed01}' => Some((1i64, 0i32)),
        '\u{1ed02}' => Some((2i64, 0i32)),
        '\u{1ed03}' => Some((3i64, 0i32)),
        '\u{1ed04}' => Some((4i64, 0i32)),
        '\u{1ed05}' => Some((5i64, 0i32)),
        '\u{1ed06}' => Some((6i64, 0i32)),
        '\u{1ed07}' => Some((7i64, 0i32)),
        '\u{1ed08}' => Some((8i64, 0i32)),
        '\u{1ed09}' => Some((9i64, 0i32)),
        '\u{1ed0a}' => Some((1i64, 1i32)),
        '\u{1ed0b}' => Some((2i64, 1i32)),
        '\u{1ed0c}' => Some((3i64, 1i32)),
        '\u{1ed0d}' => Some((4i64, 1i32)),
        '\u{1ed0e}' => Some((5i64, 1i32)),
        '\u{1ed0f}' => Some((6i64, 1i32)),
        '\u{1ed10}' => Some((7i64, 1i32)),
        '\u{1ed11}' => Some((8i64, 1i32)),
        '\u{1ed12}' => Some((9i64, 1i32)),
        '\u{1ed13}' => Some((1i64, 2i32)),
        '\u{1ed14}' => Some((2i64, 2i32)),
        '\u{1ed15}' => Some((3i64, 2i32)),
        '\u{1ed16}' => Some((4i64, 2i32)),
        '\u{1ed17}' => Some((5i64, 2i32)),
        '\u{1ed18}' => Some((6i64, 2i32)),
        '\u{1ed19}' => Some((7i64, 2i32)),
        '\u{1ed1a}' => Some((8i64, 2i32)),
        '\u{1ed1b}' => Some((9i64, 2i32)),
        '\u{1ed1c}' => Some((1i64, 3i32)),
        '\u{1ed1d}' => Some((2i64, 3i32)),
        '\u{1ed1e}' => Some((3i64, 3i32)),
        '\u{1ed1f}' => Some((4i64, 3i32)),
        '\u{1ed20}' => Some((5i64, 3i32)),
        '\u{1ed21}' => Some((6i64, 3i32)),
        '\u{1ed22}' => Some((7i64, 3i32)),
        '\u{1ed23}' => Some((8i64, 3i32)),
        '\u{1ed24}' => Some((9i64, 3i32)),
        '\u{1ed25}' => Some((1i64, 4i32)),
        '\u{1ed26}' => Some((2i64, 4i32)),
        '\u{1ed27}' => Some((3i64, 4i32)),
        '\u{1ed28}' => Some((4i64, 4i32)),
        '\u{1ed29}' => Some((5i64, 4i32)),
        '\u{1ed2a}' => Some((6i64, 4i32)),
        '\u{1ed2b}' => Some((7i64, 4i32)),
        '\u{1ed2c}' => Some((8i64, 4i32)),
        '\u{1ed2d}' => Some((9i64, 4i32)),
        '\u{1ed2f}' => Some((2i64, 0i32)),
        '\u{1ed30}' => Some((3i64, 0i32)),
        _ => None,
    }
}

fn unicode_numeric_part25(c: char) -> (r: Option<(i64, i32)>)
    ensures
        r == spec_unicode_numeric_part25(c),
{
    match c {
        '\u{1ed31}' => Some((4i64, 0i32)),
        '\u{1ed32}' => Some((5i64, 0i32)),
        '\u{1ed33}' => Some((6i64, 0i32)),
        '\u{1ed34}' => Some((7i64, 0i32)),
        '\u{1ed35}' => Some((8i64, 0i32)),
        '\u{1ed36}' => Some((9i64, 0i32)),
        '\u{1ed37}' => Some((1i64, 1i32)),
        '\u{1ed38}' => Some((4i64, 2i32)),
        '\u{1ed39}' => Some((6i64, 2i32)),
        '\u{1ed3a}' => Some((2i64, 3i32)),
        '\u{1ed3b}' => Some((1i64, 4i32)),
        '\u{1ed3c}' => Some((5i64, -1i32)),
        '\u{1ed3d}' => Some((16666666666666666i64, -17i32)),
        '\u{1f100}' => Some((0i64, 0i32)),
        '\u{1f101}' => Some((0i64, 0i32)),
        '\u{1f102}' => Some((1i64, 0i32)),
        '\u{1f103}' => Some((2i64, 0i32)),
        '\u{1f104}' => Some((3i64, 0i32)),
        '\u{1f105}' => Some((4i64, 0i32)),
        '\u{1f106}' => Some((5i64, 0i32)),
        '\u{1f107}' => Some((6i64, 0i32)),
        '\u{1f108}' => Some((7i64, 0i32)),
        '\u{1f109}' => Some((8i64, 0i32)),
        '\u{1f10a}' => Some((9i64, 0i32)),
        '\u{1f10b}' => Some((0i64, 0i32)),
        '\u{1f10c}' => Some((0i64, 0i32)),
        '\u{20001}' => Some((7i64, 0i32)),
        '\u{20064}' => Some((4i64, 0i32)),
        '\u{200e2}' => Some((4i64, 0i32)),
        '\u{20121}' => Some((5i64, 0i32)),
        '\u{2092a}' => Some((1i64, 0i32)),
        '\u{20983}' => Some((3i64, 1i32)),
        '\u{2098c}' => Some((4i64, 1i32)),
        '\u{2099c}' => Some((4i64, 1i32)),
        '\u{20aea}' => Some((6i64, 0i32)),
        '\u{20afd}' => Some((3i64, 0i32)),
        '\u{20b19}' => Some((3i64, 0i32)),
        '\u{22390}' => Some((2i64, 0i32)),
        '\u{22998}' => Some((3i64, 0i32)),
        '\u{23b1b}' => Some((3i64, 0i32)),
        '\u{2626d}' => Some((4i64, 0i32)),
        '\u{2f890}' => Some((9i64, 0i32)),
        _ => None,
    }
}

/// The value of a Unicode character that has a numeric value without being a
/// decimal digit (fractions, Roman numerals, ideographic numbers and so on),
/// as `(mantissa, exponent)` meaning `mantissa * 10^exponent`, with the
/// shortest mantissa that reproduces the character's floating-point value.
pub fn unicode_numeric_value(c: char) -> (r: Option<(i64, i32)>)
    ensures
        r == spec_unicode_numeric(c),
{
    let code = c as u32;
    if code <= 0xf2d {
        unicode_numeric_part0(c)
    } else if code <= 0x2080 {
        unicode_numeric_part1(c)
    } else if code <= 0x2176 {
        unicode_numeric_part2(c)
    } else if code <= 0x247e {
        unicode_numeric_part3(c)
    } else if code <= 0x24fc {
        unicode_numeric_part4(c)
    } else if code <= 0x3192 {
        unicode_numeric_part5(c)
    } else if code <= 0x32b2 {
        unicode_numeric_part6(c)
    } else if code <= 0x53c3 {
        unicode_numeric_part7(c)
    } else if code <= 0xa834 {
        unicode_numeric_part8(c)
    } else if code <= 0x1012e {
        unicode_numeric_part9(c)
    } else if code <= 0x1016a {
        unicode_numeric_part10(c)
    } else if code <= 0x10341 {
        unicode_numeric_part11(c)
    } else if code <= 0x109c4 {
        unicode_numeric_part12(c)
    } else if code <= 0x109f6 {
        unicode_numeric_part13(c)
    } else if code <= 0x10bac {
        unicode_numeric_part14(c)
    } else if code <= 0x10f24 {
        unicode_numeric_part15(c)
    } else if code <= 0x111ef {
        unicode_numeric_part16(c)
    } else if code <= 0x11fcc {
        unicode_numeric_part17(c)
    } else if code <= 0x12427 {
        unicode_numeric_part18(c)
    } else if code <= 0x12457 {
        unicode_numeric_part19(c)
    } else if code <= 0x16e91 {
        unicode_numeric_part20(c)
    } else if code <= 0x1d362 {
        unicode_numeric_part21(c)
    } else if code <= 0x1ec81 {
        unicode_numeric_part22(c)
    } else if code <= 0x1ecb3 {
        unicode_numeric_part23(c)
    } else if code <= 0x1ed30 {
        unicode_numeric_part24(c)
    } else {
        unicode_numeric_part25(c)
    }
}

} // verus!
