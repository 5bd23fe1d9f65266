use vstd::prelude::*;
use vstd::string::StringExecFns;

verus! {

/// What a matrix needs of its cells: a neutral value to pad with, and a way
/// to copy a cell. Contracts speak of cells through their view.
pub trait Element: View + Sized {
    /// The view of the padding value (zero for numbers, the empty string for text).
    spec fn zero_view() -> Self::V;

    /// The padding value.
    fn zero() -> (r: Self)
        ensures
            r@ == Self::zero_view(),
    ;

    /// An exact copy of the cell.
    fn duplicate(&self) -> (r: Self)
        ensures
            r == *self,
    ;
}

/// Cells that can be combined by an addition (numeric sum, or concatenation for text).
pub trait Summable: Element {
    /// Whether the sum of two cells can be formed (no overflow).
    spec fn can_add(a: Self::V, b: Self::V) -> bool;

    /// The sum of two cells.
    spec fn sum_of(a: Self::V, b: Self::V) -> Self::V;

    fn plus(&self, other: &Self) -> (r: Self)
        requires
            Self::can_add(self@, other@),
        ensures
            r@ == Self::sum_of(self@, other@),
    ;
}

/// Cells that can also be multiplied; the zero value is the seed of a dot product.
pub trait Multipliable: Summable {
    /// Whether the product of two cells can be formed (no overflow).
    spec fn can_mul(a: Self::V, b: Self::V) -> bool;

    /// The product of two cells.
    spec fn product_of(a: Self::V, b: Self::V) -> Self::V;

    fn times(&self, other: &Self) -> (r: Self)
        requires
            Self::can_mul(self@, other@),
        ensures
            r@ == Self::product_of(self@, other@),
    ;
}

/// Cells whose addition does not depend on the order of its operands.
pub trait CommutativeSum: Summable {
    proof fn lemma_sum_commutes(a: Self::V, b: Self::V)
        ensures
            Self::can_add(a, b) == Self::can_add(b, a),
            Self::sum_of(a, b) == Self::sum_of(b, a),
    ;
}

impl Element for u8 {
    open spec fn zero_view() -> u8 {
        0
    }

    fn zero() -> (r: u8) {
        0
    }

    fn duplicate(&self) -> (r: u8) {
        *self
    }
}

impl Summable for u8 {
    open spec fn can_add(a: u8, b: u8) -> bool {
        u8::MIN <= a + b <= u8::MAX
    }

    open spec fn sum_of(a: u8, b: u8) -> u8 {
        (a + b) as u8
    }

    fn plus(&self, other: &u8) -> (r: u8) {
        *self + *other
    }
}

impl Multipliable for u8 {
    open spec fn can_mul(a: u8, b: u8) -> bool {
        u8::MIN <= a * b <= u8::MAX
    }

    open spec fn product_of(a: u8, b: u8) -> u8 {
        (a * b) as u8
    }

    fn times(&self, other: &u8) -> (r: u8) {
        *self * *other
    }
}

impl CommutativeSum for u8 {
    proof fn lemma_sum_commutes(a: u8, b: u8) {
    }
}

impl Element for u16 {
    open spec fn zero_view() -> u16 {
        0
    }

    fn zero() -> (r: u16) {
        0
    }

    fn duplicate(&self) -> (r: u16) {
        *self
    }
}

impl Summable for u16 {
    open spec fn can_add(a: u16, b: u16) -> bool {
        u16::MIN <= a + b <= u16::MAX
    }

    open spec fn sum_of(a: u16, b: u16) -> u16 {
        (a + b) as u16
    }

    fn plus(&self, other: &u16) -> (r: u16) {
        *self + *other
    }
}

impl Multipliable for u16 {
    open spec fn can_mul(a: u16, b: u16) -> bool {
        u16::MIN <= a * b <= u16::MAX
    }

    open spec fn product_of(a: u16, b: u16) -> u16 {
        (a * b) as u16
    }

    fn times(&self, other: &u16) -> (r: u16) {
        *self * *other
    }
}

impl CommutativeSum for u16 {
    proof fn lemma_sum_commutes(a: u16, b: u16) {
    }
}

impl Element for u32 {
    open spec fn zero_view() -> u32 {
        0
    }

    fn zero() -> (r: u32) {
        0
    }

    fn duplicate(&self) -> (r: u32) {
        *self
    }
}

impl Summable for u32 {
    open spec fn can_add(a: u32, b: u32) -> bool {
        u32::MIN <= a + b <= u32::MAX
    }

    open spec fn sum_of(a: u32, b: u32) -> u32 {
        (a + b) as u32
    }

    fn plus(&self, other: &u32) -> (r: u32) {
        *self + *other
    }
}

impl Multipliable for u32 {
    open spec fn can_mul(a: u32, b: u32) -> bool {
        u32::MIN <= a * b <= u32::MAX
    }

    open spec fn product_of(a: u32, b: u32) -> u32 {
        (a * b) as u32
    }

    fn times(&self, other: &u32) -> (r: u32) {
        *self * *other
    }
}

impl CommutativeSum for u32 {
    proof fn lemma_sum_commutes(a: u32, b: u32) {
    }
}

impl Element for u64 {
    open spec fn zero_view() -> u64 {
        0
    }

    fn zero() -> (r: u64) {
        0
    }

    fn duplicate(&self) -> (r: u64) {
        *self
    }
}

impl Summable for u64 {
    open spec fn can_add(a: u64, b: u64) -> bool {
        u64::MIN <= a + b <= u64::MAX
    }

    open spec fn sum_of(a: u64, b: u64) -> u64 {
        (a + b) as u64
    }

    fn plus(&self, other: &u64) -> (r: u64) {
        *self + *other
    }
}

impl Multipliable for u64 {
    open spec fn can_mul(a: u64, b: u64) -> bool {
        u64::MIN <= a * b <= u64::MAX
    }

    open spec fn product_of(a: u64, b: u64) -> u64 {
        (a * b) as u64
    }

    fn times(&self, other: &u64) -> (r: u64) {
        *self * *other
    }
}

impl CommutativeSum for u64 {
    proof fn lemma_sum_commutes(a: u64, b: u64) {
    }
}

impl Element for usize {
    open spec fn zero_view() -> usize {
        0
    }

    fn zero() -> (r: usize) {
        0
    }

    fn duplicate(&self) -> (r: usize) {
        *self
    }
}

impl Summable for usize {
    open spec fn can_add(a: usize, b: usize) -> bool {
        usize::MIN <= a + b <= usize::MAX
    }

    open spec fn sum_of(a: usize, b: usize) -> usize {
        (a + b) as usize
    }

    fn plus(&self, other: &usize) -> (r: usize) {
        *self + *other
    }
}

impl Multipliable for usize {
    open spec fn can_mul(a: usize, b: usize) -> bool {
        usize::MIN <= a * b <= usize::MAX
    }

    open spec fn product_of(a: usize, b: usize) -> usize {
        (a * b) as usize
    }

    fn times(&self, other: &usize) -> (r: usize) {
        *self * *other
    }
}

impl CommutativeSum for usize {
    proof fn lemma_sum_commutes(a: usize, b: usize) {
    }
}

impl Element for i8 {
    open spec fn zero_view() -> i8 {
        0
    }

    fn zero() -> (r: i8) {
        0
    }

    fn duplicate(&self) -> (r: i8) {
        *self
    }
}

impl Summable for i8 {
    open spec fn can_add(a: i8, b: i8) -> bool {
        i8::MIN <= a + b <= i8::MAX
    }

    open spec fn sum_of(a: i8, b: i8) -> i8 {
        (a + b) as i8
    }

    fn plus(&self, other: &i8) -> (r: i8) {
        *self + *other
    }
}

impl Multipliable for i8 {
    open spec fn can_mul(a: i8, b: i8) -> bool {
        i8::MIN <= a * b <= i8::MAX
    }

    open spec fn product_of(a: i8, b: i8) -> i8 {
        (a * b) as i8
    }

    fn times(&self, other: &i8) -> (r: i8) {
        *self * *other
    }
}

impl CommutativeSum for i8 {
    proof fn lemma_sum_commutes(a: i8, b: i8) {
    }
}

impl Element for i16 {
    open spec fn zero_view() -> i16 {
        0
    }

    fn zero() -> (r: i16) {
        0
    }

    fn duplicate(&self) -> (r: i16) {
        *self
    }
}

impl Summable for i16 {
    open spec fn can_add(a: i16, b: i16) -> bool {
        i16::MIN <= a + b <= i16::MAX
    }

    open spec fn sum_of(a: i16, b: i16) -> i16 {
        (a + b) as i16
    }

    fn plus(&self, other: &i16) -> (r: i16) {
        *self + *other
    }
}

impl Multipliable for i16 {
    open spec fn can_mul(a: i16, b: i16) -> bool {
        i16::MIN <= a * b <= i16::MAX
    }

    open spec fn product_of(a: i16, b: i16) -> i16 {
        (a * b) as i16
    }

    fn times(&self, other: &i16) -> (r: i16) {
        *self * *other
    }
}

impl CommutativeSum for i16 {
    proof fn lemma_sum_commutes(a: i16, b: i16) {
    }
}

impl Element for i32 {
    open spec fn zero_view() -> i32 {
        0
    }

    fn zero() -> (r: i32) {
        0
    }

    fn duplicate(&self) -> (r: i32) {
        *self
    }
}

impl Summable for i32 {
    open spec fn can_add(a: i32, b: i32) -> bool {
        i32::MIN <= a + b <= i32::MAX
    }

    open spec fn sum_of(a: i32, b: i32) -> i32 {
        (a + b) as i32
    }

    fn plus(&self, other: &i32) -> (r: i32) {
        *self + *other
    }
}

impl Multipliable for i32 {
    open spec fn can_mul(a: i32, b: i32) -> bool {
        i32::MIN <= a * b <= i32::MAX
    }

    open spec fn product_of(a: i32, b: i32) -> i32 {
        (a * b) as i32
    }

    fn times(&self, other: &i32) -> (r: i32) {
        *self * *other
    }
}

impl CommutativeSum for i32 {
    proof fn lemma_sum_commutes(a: i32, b: i32) {
    }
}

impl Element for i64 {
    open spec fn zero_view() -> i64 {
        0
    }

    fn zero() -> (r: i64) {
        0
    }

    fn duplicate(&self) -> (r: i64) {
        *self
    }
}

impl Summable for i64 {
    open spec fn can_add(a: i64, b: i64) -> bool {
        i64::MIN <= a + b <= i64::MAX
    }

    open spec fn sum_of(a: i64, b: i64) -> i64 {
        (a + b) as i64
    }

    fn plus(&self, other: &i64) -> (r: i64) {
        *self + *other
    }
}

impl Multipliable for i64 {
    open spec fn can_mul(a: i64, b: i64) -> bool {
        i64::MIN <= a * b <= i64::MAX
    }

    open spec fn product_of(a: i64, b: i64) -> i64 {
        (a * b) as i64
    }

    fn times(&self, other: &i64) -> (r: i64) {
        *self * *other
    }
}

impl CommutativeSum for i64 {
    proof fn lemma_sum_commutes(a: i64, b: i64) {
    }
}

impl Element for isize {
    open spec fn zero_view() -> isize {
        0
    }

    fn zero() -> (r: isize) {
        0
    }

    fn duplicate(&self) -> (r: isize) {
        *self
    }
}

impl Summable for isize {
    open spec fn can_add(a: isize, b: isize) -> bool {
        isize::MIN <= a + b <= isize::MAX
    }

    open spec fn sum_of(a: isize, b: isize) -> isize {
        (a + b) as isize
    }

    fn plus(&self, other: &isize) -> (r: isize) {
        *self + *other
    }
}

impl Multipliable for isize {
    open spec fn can_mul(a: isize, b: isize) -> bool {
        isize::MIN <= a * b <= isize::MAX
    }

    open spec fn product_of(a: isize, b: isize) -> isize {
        (a * b) as isize
    }

    fn times(&self, other: &isize) -> (r: isize) {
        *self * *other
    }
}

impl CommutativeSum for isize {
    proof fn lemma_sum_commutes(a: isize, b: isize) {
    }
}

impl Element for String {
    open spec fn zero_view() -> Seq<char> {
        Seq::empty()
    }

    fn zero() -> (r: String) {
        String::new()
    }

    fn duplicate(&self) -> (r: String) {
        self.clone()
    }
}

impl Summable for String {
    open spec fn can_add(a: Seq<char>, b: Seq<char>) -> bool {
        true
    }

    open spec fn sum_of(a: Seq<char>, b: Seq<char>) -> Seq<char> {
        a + b
    }

    fn plus(&self, other: &String) -> (r: String) {
        self.clone().concat(other.as_str())
    }
}

} // verus!
