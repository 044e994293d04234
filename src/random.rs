use vstd::prelude::*;

use crate::color::Color;
use crate::geometry::{Point, Rect, SCREEN_HEIGHT, SCREEN_WIDTH};

verus! {

/// Where random words come from: each call yields one 32-bit word. Nothing is
/// assumed of the words.
pub trait EntropySource {
    fn next_word(&mut self) -> u32;
}

/// Byte `k` (0 to 3, least significant first) of `w`.
pub open spec fn word_byte(w: u32, k: int) -> u8 {
    if k == 0 {
        (w % 256) as u8
    } else if k == 1 {
        ((w / 256) % 256) as u8
    } else if k == 2 {
        ((w / 65536) % 256) as u8
    } else {
        ((w / 16777216) % 256) as u8
    }
}

/// The first `n` bytes of the words laid out one after another, each word
/// least significant byte first.
pub open spec fn bytes_of_words(words: Seq<u32>, n: int) -> Seq<u8> {
    Seq::new(n as nat, |i: int| word_byte(words[i / 4], i % 4))
}

fn byte_of_word(w: u32, k: usize) -> (b: u8)
    requires
        k < 4,
    ensures
        b == word_byte(w, k as int),
{
    if k == 0 {
        assert((w & 0xff) == w % 256) by (bit_vector);
        (w & 0xff) as u8
    } else if k == 1 {
        assert(((w >> 8u32) & 0xff) == (w / 256) % 256) by (bit_vector);
        ((w >> 8) & 0xff) as u8
    } else if k == 2 {
        assert(((w >> 16u32) & 0xff) == (w / 65536) % 256) by (bit_vector);
        ((w >> 16) & 0xff) as u8
    } else {
        assert(((w >> 24u32) & 0xff) == (w / 16777216) % 256) by (bit_vector);
        ((w >> 24) & 0xff) as u8
    }
}

/// The number whose bytes, least significant first, are `bytes`.
pub open spec fn le_of(bytes: Seq<u8>) -> int
    decreases bytes.len(),
{
    if bytes.len() == 0 {
        0
    } else {
        bytes[0] + 256 * le_of(bytes.drop_first())
    }
}

/// `256` to the power `n`: one more than the largest number of `n` bytes.
pub open spec fn byte_span(n: nat) -> int
    decreases n,
{
    if n == 0 {
        1
    } else {
        256 * byte_span((n - 1) as nat)
    }
}

proof fn lemma_byte_span_grows(n: nat, m: nat)
    requires
        n <= m,
    ensures
        1 <= byte_span(n) <= byte_span(m),
    decreases m,
{
    if n < m {
        lemma_byte_span_grows(n, (m - 1) as nat);
    } else if n > 0 {
        lemma_byte_span_grows((n - 1) as nat, (n - 1) as nat);
    }
}

/// The first `n` bytes of `words`, each word least significant byte first.
pub fn bytes_from_words(words: &Vec<u32>, n: usize) -> (r: Vec<u8>)
    requires
        words@.len() == (n + 3) / 4,
    ensures
        r@ == bytes_of_words(words@, n as int),
{
    let mut bytes: Vec<u8> = Vec::new();
    let mut i: usize = 0;
    while i < n
        invariant
            i <= n,
            words@.len() == (n + 3) / 4,
            bytes@ == bytes_of_words(words@, i as int),
        decreases n - i,
    {
        let b = byte_of_word(words[i / 4], i % 4);
        bytes.push(b);
        i += 1;
        assert(bytes@ =~= bytes_of_words(words@, i as int));
    }
    bytes
}

/// The number whose bytes, least significant first, are `bytes`.
pub fn le_value(bytes: &Vec<u8>) -> (r: u128)
    requires
        bytes@.len() <= 16,
    ensures
        r == le_of(bytes@),
{
    let n = bytes.len();
    let mut v: u128 = 0;
    let mut k: usize = n;
    proof {
        reveal_with_fuel(byte_span, 17);
        assert(bytes@.subrange(n as int, n as int) =~= Seq::<u8>::empty());
    }
    while k > 0
        invariant
            k <= n == bytes@.len() <= 16,
            v == le_of(bytes@.subrange(k as int, n as int)),
            v < byte_span((n - k) as nat),
            byte_span(15) == 0x100_0000_0000_0000_0000_0000_0000_0000,
        decreases k,
    {
        proof {
            lemma_byte_span_grows((n - k) as nat, 15);
            assert(bytes@.subrange(k - 1, n as int).drop_first() =~= bytes@.subrange(
                k as int,
                n as int,
            ));
        }
        v = bytes[k - 1] as u128 + 256 * v;
        k -= 1;
    }
    assert(bytes@.subrange(0, n as int) =~= bytes@);
    v
}

/// Draws `count` words from the source.
pub fn draw_words<S: EntropySource>(src: &mut S, count: usize) -> (r: Vec<u32>)
    ensures
        r@.len() == count,
{
    let mut words: Vec<u32> = Vec::new();
    while words.len() < count
        invariant
            words@.len() <= count,
        decreases count - words@.len(),
    {
        words.push(src.next_word());
    }
    words
}

/// Fills `n` bytes from the source, four bytes per word drawn: the result is
/// the first `n` bytes of `(n + 3) / 4` words.
pub fn fill_bytes<S: EntropySource>(src: &mut S, n: usize) -> (r: Vec<u8>)
    ensures
        exists|words: Seq<u32>| words.len() == (n + 3) / 4 && r@ == bytes_of_words(words, n as int),
{
    let count = n / 4 + if n % 4 == 0 { 0 } else { 1 };
    let words = draw_words(src, count);
    bytes_from_words(&words, n)
}

/// The value of one word read as its first `n` bytes: the word itself for
/// four bytes, its low half for two, its low byte for one.
pub proof fn lemma_one_word(w: u32)
    ensures
        le_of(bytes_of_words(seq![w], 4)) == w,
        le_of(bytes_of_words(seq![w], 2)) == w % 65536,
        le_of(bytes_of_words(seq![w], 1)) == w % 256,
{
    reveal_with_fuel(le_of, 5);
    let b = bytes_of_words(seq![w], 4);
    assert(b.drop_first() =~= seq![b[1], b[2], b[3]]);
    assert(b.drop_first().drop_first() =~= seq![b[2], b[3]]);
    assert(b.drop_first().drop_first().drop_first() =~= seq![b[3]]);
    assert(seq![b[3]].drop_first() =~= Seq::<u8>::empty());
    let h = bytes_of_words(seq![w], 2);
    assert(h.drop_first() =~= seq![h[1]]);
    assert(seq![h[1]].drop_first() =~= Seq::<u8>::empty());
    let l = bytes_of_words(seq![w], 1);
    assert(l.drop_first() =~= Seq::<u8>::empty());
    assert(w % 256 + 256 * ((w / 256) % 256 + 256 * ((w / 65536) % 256 + 256 * ((w / 16777216)
        % 256))) == w) by (nonlinear_arith);
    assert(w % 256 + 256 * ((w / 256) % 256) == w % 65536) by (nonlinear_arith);
}

/// Reading two byte strings one after the other: the second counts from the
/// first's length on.
pub proof fn lemma_le_of_concat(a: Seq<u8>, b: Seq<u8>)
    ensures
        le_of(a + b) == le_of(a) + byte_span(a.len()) * le_of(b),
    decreases a.len(),
{
    if a.len() == 0 {
        assert(a + b =~= b);
    } else {
        lemma_le_of_concat(a.drop_first(), b);
        assert((a + b).drop_first() =~= a.drop_first() + b);
        let x = le_of(a.drop_first());
        let y = le_of(b);
        let p = byte_span((a.len() - 1) as nat);
        assert(256 * (x + p * y) == 256 * x + (256 * p) * y) by (nonlinear_arith);
    }
}

/// Eight bytes of two words: the first word is the low half, the second the
/// high half.
pub proof fn lemma_two_words(a: u32, b: u32)
    ensures
        le_of(bytes_of_words(seq![a, b], 8)) == a + 0x1_0000_0000 * b,
{
    let whole = bytes_of_words(seq![a, b], 8);
    assert(whole =~= bytes_of_words(seq![a], 4) + bytes_of_words(seq![b], 4));
    lemma_le_of_concat(bytes_of_words(seq![a], 4), bytes_of_words(seq![b], 4));
    lemma_one_word(a);
    lemma_one_word(b);
    reveal_with_fuel(byte_span, 5);
}

/// A point from two words: `x` is the first modulo the screen width, `y` the
/// second modulo the screen height.
pub fn point_from_words(a: u32, b: u32) -> (p: Point)
    ensures
        p.x == a % SCREEN_WIDTH as u32,
        p.y == b % SCREEN_HEIGHT as u32,
{
    Point { x: (a % SCREEN_WIDTH as u32) as u16, y: (b % SCREEN_HEIGHT as u32) as u16 }
}

/// A rectangle from four words: `x` modulo the screen width, `y` modulo the
/// screen height, and both `w` and `h` modulo the screen width, so that a
/// rectangle may reach below the bottom of the screen.
pub fn rect_from_words(a: u32, b: u32, c: u32, d: u32) -> (r: Rect)
    ensures
        r.x == a % SCREEN_WIDTH as u32,
        r.y == b % SCREEN_HEIGHT as u32,
        r.w == c % SCREEN_WIDTH as u32,
        r.h == d % SCREEN_WIDTH as u32,
{
    Rect {
        x: (a % SCREEN_WIDTH as u32) as u16,
        y: (b % SCREEN_HEIGHT as u32) as u16,
        w: (c % SCREEN_WIDTH as u32) as u16,
        h: (d % SCREEN_WIDTH as u32) as u16,
    }
}

/// A type whose values can be drawn from an entropy source: a value is made
/// of a fixed number of words.
pub trait Random: Sized {
    /// How many words one value is made of.
    spec fn words_needed() -> nat;

    /// The value made of `words`.
    spec fn of_words(words: Seq<u32>) -> Self;

    /// The values that `random` can yield.
    spec fn in_range(&self) -> bool;

    /// How many words one value is made of.
    fn word_count() -> (n: usize)
        ensures
            n == Self::words_needed(),
    ;

    /// The value made of `words`.
    fn from_words(words: &Vec<u32>) -> (r: Self)
        requires
            words@.len() == Self::words_needed(),
        ensures
            r == Self::of_words(words@),
            r.in_range(),
    ;

    /// Draws `word_count()` words and makes a value of them.
    fn random<S: EntropySource>(src: &mut S) -> (r: Self)
        ensures
            r.in_range(),
            exists|words: Seq<u32>| words.len() == Self::words_needed() && r == Self::of_words(words),
    {
        let words = draw_words(src, Self::word_count());
        Self::from_words(&words)
    }
}

/// Draws a value of `T`.
pub fn random<T: Random, S: EntropySource>(src: &mut S) -> (r: T)
    ensures
        r.in_range(),
        exists|words: Seq<u32>| words.len() == T::words_needed() && r == T::of_words(words),
{
    T::random(src)
}

impl Random for Point {
    open spec fn words_needed() -> nat {
        2
    }

    /// `x` from the first word, `y` from the second.
    open spec fn of_words(words: Seq<u32>) -> Point {
        Point {
            x: (words[0] % SCREEN_WIDTH as u32) as u16,
            y: (words[1] % SCREEN_HEIGHT as u32) as u16,
        }
    }

    /// On the screen.
    open spec fn in_range(&self) -> bool {
        self.x < SCREEN_WIDTH && self.y < SCREEN_HEIGHT
    }

    fn word_count() -> (n: usize) {
        2
    }

    fn from_words(words: &Vec<u32>) -> (r: Point) {
        point_from_words(words[0], words[1])
    }
}

impl Random for Rect {
    open spec fn words_needed() -> nat {
        4
    }

    /// `x`, `y`, `w` and `h` from the four words in turn.
    open spec fn of_words(words: Seq<u32>) -> Rect {
        Rect {
            x: (words[0] % SCREEN_WIDTH as u32) as u16,
            y: (words[1] % SCREEN_HEIGHT as u32) as u16,
            w: (words[2] % SCREEN_WIDTH as u32) as u16,
            h: (words[3] % SCREEN_WIDTH as u32) as u16,
        }
    }

    /// Origin on the screen; width and height below the screen width.
    open spec fn in_range(&self) -> bool {
        self.x < SCREEN_WIDTH && self.y < SCREEN_HEIGHT && self.w < SCREEN_WIDTH && self.h
            < SCREEN_WIDTH
    }

    fn word_count() -> (n: usize) {
        4
    }

    fn from_words(words: &Vec<u32>) -> (r: Rect) {
        rect_from_words(words[0], words[1], words[2], words[3])
    }
}

impl Random for Color {
    open spec fn words_needed() -> nat {
        1
    }

    /// The low half of the word.
    open spec fn of_words(words: Seq<u32>) -> Color {
        Color { rgb565: le_of(bytes_of_words(words, 2)) as u16 }
    }

    open spec fn in_range(&self) -> bool {
        true
    }

    fn word_count() -> (n: usize) {
        1
    }

    fn from_words(words: &Vec<u32>) -> (r: Color) {
        let bytes = bytes_from_words(words, 2);
        Color { rgb565: le_value(&bytes) as u16 }
    }
}

impl Random for u8 {
    open spec fn words_needed() -> nat {
        1
    }

    /// The low byte of the word.
    open spec fn of_words(words: Seq<u32>) -> u8 {
        le_of(bytes_of_words(words, 1)) as u8
    }

    open spec fn in_range(&self) -> bool {
        true
    }

    fn word_count() -> (n: usize) {
        1
    }

    fn from_words(words: &Vec<u32>) -> (r: u8) {
        let bytes = bytes_from_words(words, 1);
        le_value(&bytes) as u8
    }
}

impl Random for u16 {
    open spec fn words_needed() -> nat {
        1
    }

    /// The low half of the word.
    open spec fn of_words(words: Seq<u32>) -> u16 {
        le_of(bytes_of_words(words, 2)) as u16
    }

    open spec fn in_range(&self) -> bool {
        true
    }

    fn word_count() -> (n: usize) {
        1
    }

    fn from_words(words: &Vec<u32>) -> (r: u16) {
        let bytes = bytes_from_words(words, 2);
        le_value(&bytes) as u16
    }
}

impl Random for u32 {
    open spec fn words_needed() -> nat {
        1
    }

    /// The word itself.
    open spec fn of_words(words: Seq<u32>) -> u32 {
        le_of(bytes_of_words(words, 4)) as u32
    }

    open spec fn in_range(&self) -> bool {
        true
    }

    fn word_count() -> (n: usize) {
        1
    }

    fn from_words(words: &Vec<u32>) -> (r: u32) {
        let bytes = bytes_from_words(words, 4);
        le_value(&bytes) as u32
    }
}

impl Random for u64 {
    open spec fn words_needed() -> nat {
        2
    }

    /// Two words, the first in the low half.
    open spec fn of_words(words: Seq<u32>) -> u64 {
        le_of(bytes_of_words(words, 8)) as u64
    }

    open spec fn in_range(&self) -> bool {
        true
    }

    fn word_count() -> (n: usize) {
        2
    }

    fn from_words(words: &Vec<u32>) -> (r: u64) {
        let bytes = bytes_from_words(words, 8);
        le_value(&bytes) as u64
    }
}

impl Random for u128 {
    open spec fn words_needed() -> nat {
        4
    }

    /// Four words, the first in the low quarter.
    open spec fn of_words(words: Seq<u32>) -> u128 {
        le_of(bytes_of_words(words, 16)) as u128
    }

    open spec fn in_range(&self) -> bool {
        true
    }

    fn word_count() -> (n: usize) {
        4
    }

    fn from_words(words: &Vec<u32>) -> (r: u128) {
        let bytes = bytes_from_words(words, 16);
        le_value(&bytes) as u128
    }
}

impl Random for i8 {
    open spec fn words_needed() -> nat {
        1
    }

    /// The low byte of the word, its bits read as signed.
    open spec fn of_words(words: Seq<u32>) -> i8 {
        le_of(bytes_of_words(words, 1)) as i8
    }

    open spec fn in_range(&self) -> bool {
        true
    }

    fn word_count() -> (n: usize) {
        1
    }

    fn from_words(words: &Vec<u32>) -> (r: i8) {
        let bytes = bytes_from_words(words, 1);
        le_value(&bytes) as i8
    }
}

impl Random for i16 {
    open spec fn words_needed() -> nat {
        1
    }

    /// The low half of the word, its bits read as signed.
    open spec fn of_words(words: Seq<u32>) -> i16 {
        le_of(bytes_of_words(words, 2)) as i16
    }

    open spec fn in_range(&self) -> bool {
        true
    }

    fn word_count() -> (n: usize) {
        1
    }

    fn from_words(words: &Vec<u32>) -> (r: i16) {
        let bytes = bytes_from_words(words, 2);
        le_value(&bytes) as i16
    }
}

impl Random for i32 {
    open spec fn words_needed() -> nat {
        1
    }

    /// The word, its bits read as signed.
    open spec fn of_words(words: Seq<u32>) -> i32 {
        le_of(bytes_of_words(words, 4)) as i32
    }

    open spec fn in_range(&self) -> bool {
        true
    }

    fn word_count() -> (n: usize) {
        1
    }

    fn from_words(words: &Vec<u32>) -> (r: i32) {
        let bytes = bytes_from_words(words, 4);
        le_value(&bytes) as i32
    }
}

impl Random for i64 {
    open spec fn words_needed() -> nat {
        2
    }

    /// Two words, the first in the low half, read as signed.
    open spec fn of_words(words: Seq<u32>) -> i64 {
        le_of(bytes_of_words(words, 8)) as i64
    }

    open spec fn in_range(&self) -> bool {
        true
    }

    fn word_count() -> (n: usize) {
        2
    }

    fn from_words(words: &Vec<u32>) -> (r: i64) {
        let bytes = bytes_from_words(words, 8);
        le_value(&bytes) as i64
    }
}

impl Random for i128 {
    open spec fn words_needed() -> nat {
        4
    }

    /// Four words, the first in the low quarter, read as signed.
    open spec fn of_words(words: Seq<u32>) -> i128 {
        le_of(bytes_of_words(words, 16)) as i128
    }

    open spec fn in_range(&self) -> bool {
        true
    }

    fn word_count() -> (n: usize) {
        4
    }

    fn from_words(words: &Vec<u32>) -> (r: i128) {
        let bytes = bytes_from_words(words, 16);
        le_value(&bytes) as i128
    }
}

} // verus!
