//! The hundred sample notes that a new database is filled with.

use vstd::prelude::*;
use crate::text::{nat_digits, push_u64_decimal};

verus! {

/// Number of sample notes.
pub const SAMPLE_COUNT: u32 = 100;

/// The four texts that sample notes carry after their number.
pub enum SampleText {
    /// "测试笔记"
    Short,
    /// On Rust's speed.
    Speed,
    /// On Rust's tooling.
    Tooling,
    /// On who uses Rust.
    Adoption,
}

/// Which text sample note `i` carries: even numbers that are multiples of 10
/// get the short one, other even numbers the one on speed, odd multiples of 3
/// the one on tooling, and the rest the one on adoption.
pub open spec fn sample_kind(i: int) -> SampleText {
    if i % 2 == 0 {
        if i % 10 == 0 {
            SampleText::Short
        } else {
            SampleText::Speed
        }
    } else if i % 3 == 0 {
        SampleText::Tooling
    } else {
        SampleText::Adoption
    }
}

/// What follows the number of a sample note, from the `: ` on.
pub open spec fn sample_suffix(kind: SampleText) -> Seq<char> {
    match kind {
        SampleText::Short => ": 测试笔记"@,
        SampleText::Speed => ": Rust速度惊人且内存利用率极高。由于没有运行时和垃圾回收, 它能够胜任对性能要求特别高的服务, 可以在嵌入式设备上运行，还能轻松和其他语言集成。"@,
        SampleText::Tooling => ": Rust拥有出色的文档、友好的编译器和清晰的错误提示信息, 还集成了一流的工具——包管理器和构建工具, 智能地自动补全和类型检验的多编辑器支持, 以及自动格式化代码等等。"@,
        SampleText::Adoption => ": 全世界已有数百家公司在生产环境中使用 Rust，以达到快速、跨平台、低资源占用的目的。很多著名且受欢迎的软件，例如 Firefox、 Dropbox 和 Cloudflare 都在使用 Rust。从初创公司到大型企业，从嵌入式设备到可扩展的 Web 服务，Rust 都完全合适。"@,
    }
}

/// The text of sample note `i`: its number, then the text its number selects.
pub open spec fn sample_content(i: nat) -> Seq<char> {
    nat_digits(i) + sample_suffix(sample_kind(i as int))
}

/// The texts go to the sample numbers as follows: the short text to the
/// multiples of 10; the text on speed to every other even number; the text
/// on tooling only to odd multiples of 3; the text on adoption to the other
/// odd numbers.
pub proof fn lemma_sample_kind_cases(i: int)
    ensures
        sample_kind(i) is Short <==> i % 10 == 0,
        sample_kind(i) is Speed <==> i % 2 == 0 && i % 10 != 0,
        sample_kind(i) is Tooling <==> i % 2 == 1 && i % 3 == 0,
        sample_kind(i) is Adoption <==> i % 2 == 1 && i % 3 != 0,
{
}

/// Which text sample note `i` carries.
pub fn sample_kind_of(i: u32) -> (k: SampleText)
    ensures
        k == sample_kind(i as int),
        k is Short <==> i % 10 == 0,
        k is Speed <==> i % 2 == 0 && i % 10 != 0,
        k is Tooling <==> i % 2 == 1 && i % 3 == 0,
        k is Adoption <==> i % 2 == 1 && i % 3 != 0,
{
    proof {
        lemma_sample_kind_cases(i as int);
    }
    if i % 2 == 0 {
        if i % 10 == 0 {
            SampleText::Short
        } else {
            SampleText::Speed
        }
    } else if i % 3 == 0 {
        SampleText::Tooling
    } else {
        SampleText::Adoption
    }
}

/// What follows the number of a sample note of kind `kind`.
pub fn sample_suffix_of(kind: &SampleText) -> (s: &'static str)
    ensures
        s@ == sample_suffix(*kind),
{
    match kind {
        SampleText::Short => ": 测试笔记",
        SampleText::Speed => ": Rust速度惊人且内存利用率极高。由于没有运行时和垃圾回收, 它能够胜任对性能要求特别高的服务, 可以在嵌入式设备上运行，还能轻松和其他语言集成。",
        SampleText::Tooling => ": Rust拥有出色的文档、友好的编译器和清晰的错误提示信息, 还集成了一流的工具——包管理器和构建工具, 智能地自动补全和类型检验的多编辑器支持, 以及自动格式化代码等等。",
        SampleText::Adoption => ": 全世界已有数百家公司在生产环境中使用 Rust，以达到快速、跨平台、低资源占用的目的。很多著名且受欢迎的软件，例如 Firefox、 Dropbox 和 Cloudflare 都在使用 Rust。从初创公司到大型企业，从嵌入式设备到可扩展的 Web 服务，Rust 都完全合适。",
    }
}

/// The text of sample note `i`.
pub fn sample_note(i: u32) -> (s: String)
    ensures
        s@ == sample_content(i as nat),
{
    let kind = sample_kind_of(i);
    let mut s = String::new();
    push_u64_decimal(&mut s, i as u64);
    s.append(sample_suffix_of(&kind));
    assert(s@ =~= sample_content(i as nat));
    s
}

/// The texts of the sample notes, in the order they are added: note 0 first.
pub fn sample_notes() -> (v: Vec<String>)
    ensures
        v.len() == SAMPLE_COUNT,
        forall|i: int| 0 <= i < SAMPLE_COUNT ==> #[trigger] v[i]@ == sample_content(i as nat),
{
    let mut v: Vec<String> = Vec::new();
    let mut i: u32 = 0;
    while i < SAMPLE_COUNT
        invariant
            i <= SAMPLE_COUNT,
            v.len() == i,
            forall|j: int| 0 <= j < i ==> #[trigger] v[j]@ == sample_content(j as nat),
        decreases SAMPLE_COUNT - i,
    {
        let s = sample_note(i);
        v.push(s);
        i = i + 1;
    }
    v
}

/// Every decimal rendering has at least one digit.
pub proof fn lemma_nat_digits_nonempty(n: nat)
    ensures
        nat_digits(n).len() >= 1,
    decreases n,
{
    if n >= 10 {
        lemma_nat_digits_nonempty(n / 10);
    }
}

/// Every sample note has text, and that text begins with the note's number
/// followed by `: `; so adding them never meets the rule that empty notes
/// are not added.
pub proof fn lemma_sample_notes_well_formed(i: nat)
    ensures
        sample_content(i).len() > 0,
        sample_content(i).subrange(0, nat_digits(i).len() as int) == nat_digits(i),
        sample_content(i)[nat_digits(i).len() as int] == ':',
        sample_content(i)[nat_digits(i).len() as int + 1] == ' ',
{
    lemma_nat_digits_nonempty(i);
    let d = nat_digits(i);
    let k = sample_kind(i as int);
    reveal_strlit(": 测试笔记");
    reveal_strlit(": Rust速度惊人且内存利用率极高。由于没有运行时和垃圾回收, 它能够胜任对性能要求特别高的服务, 可以在嵌入式设备上运行，还能轻松和其他语言集成。");
    reveal_strlit(": Rust拥有出色的文档、友好的编译器和清晰的错误提示信息, 还集成了一流的工具——包管理器和构建工具, 智能地自动补全和类型检验的多编辑器支持, 以及自动格式化代码等等。");
    reveal_strlit(": 全世界已有数百家公司在生产环境中使用 Rust，以达到快速、跨平台、低资源占用的目的。很多著名且受欢迎的软件，例如 Firefox、 Dropbox 和 Cloudflare 都在使用 Rust。从初创公司到大型企业，从嵌入式设备到可扩展的 Web 服务，Rust 都完全合适。");
    assert(sample_content(i).subrange(0, d.len() as int) =~= d);
    assert(sample_suffix(k)[0] == ':');
    assert(sample_suffix(k)[1] == ' ');
}

} // verus!
