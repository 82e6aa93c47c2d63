//! Laws of instruction categorisation: for every architecture, which
//! mnemonics fall in which family, stated word by word.
use vstd::prelude::*;
use vstd::string::StringSliceAdditionalSpecFns;

use crate::architecture::ArchKind;
use crate::instruction::{
    Category, ARM64_ARITHMETIC, ARM64_CONTROL, ARM64_LOGIC, ARM64_MOV, ARM64_SYSTEM, ARM_ARITHMETIC, ARM_CONTROL,
    ARM_LOGIC, ARM_MOV, ARM_SYSTEM, X86_ARITHMETIC, X86_CONTROL, X86_LOGIC, X86_MOV, X86_SYSTEM,
};

verus! {

/// Words with different text have different bytes.
proof fn lemma_words_differ(e: &str, w: &str)
    requires
        e@ != w@,
    ensures
        e.spec_bytes() != w.spec_bytes(),
{
    vstd::utf8::encode_utf8_decode_utf8(e@);
    vstd::utf8::encode_utf8_decode_utf8(w@);
}

/// A lower-case word is no conditional branch `b.<cond>`: its second byte is a letter.
proof fn lemma_not_conditional(s: &str)
    requires
        forall|i: int| 0 <= i < s@.len() ==> 'a' <= #[trigger] s@[i] <= 'z',
    ensures
        !crate::instruction::is_conditional_branch(s.spec_bytes()),
{
    vstd::utf8::is_ascii_chars_encode_utf8(s@);
    if s@.len() >= 2 {
        assert(s.spec_bytes()[1] == s@[1] as u8);
    }
}

/// A mnemonic spelt in lower-case letters is left as it is by `lowered`.
proof fn lemma_lower_fixed(s: &str)
    requires
        forall|i: int| 0 <= i < s@.len() ==> 'a' <= #[trigger] s@[i] <= 'z',
    ensures
        crate::instruction::lowered(Some(s.spec_bytes())) == s.spec_bytes(),
{
    vstd::utf8::is_ascii_chars_encode_utf8(s@);
    assert(crate::instruction::lowered(Some(s.spec_bytes())) =~= s.spec_bytes());
}

proof fn lemma_arm_word_mov()
    ensures
        crate::instruction::spec_categorize_arm("mov".spec_bytes()) == Category::Mov,
{
    reveal_strlit("mov");
    assert(ARM_MOV@[0] == "mov");
}

proof fn lemma_arm_word_movw()
    ensures
        crate::instruction::spec_categorize_arm("movw".spec_bytes()) == Category::Mov,
{
    reveal_strlit("movw");
    assert(ARM_MOV@[1] == "movw");
}

proof fn lemma_arm_word_movt()
    ensures
        crate::instruction::spec_categorize_arm("movt".spec_bytes()) == Category::Mov,
{
    reveal_strlit("movt");
    assert(ARM_MOV@[2] == "movt");
}

proof fn lemma_arm_word_mvn()
    ensures
        crate::instruction::spec_categorize_arm("mvn".spec_bytes()) == Category::Mov,
{
    reveal_strlit("mvn");
    assert(ARM_MOV@[3] == "mvn");
}

proof fn lemma_arm_word_ldr()
    ensures
        crate::instruction::spec_categorize_arm("ldr".spec_bytes()) == Category::Mov,
{
    reveal_strlit("ldr");
    assert(ARM_MOV@[4] == "ldr");
}

proof fn lemma_arm_word_str()
    ensures
        crate::instruction::spec_categorize_arm("str".spec_bytes()) == Category::Mov,
{
    reveal_strlit("str");
    assert(ARM_MOV@[5] == "str");
}

proof fn lemma_arm_word_ldm()
    ensures
        crate::instruction::spec_categorize_arm("ldm".spec_bytes()) == Category::Mov,
{
    reveal_strlit("ldm");
    assert(ARM_MOV@[6] == "ldm");
}

proof fn lemma_arm_word_stm()
    ensures
        crate::instruction::spec_categorize_arm("stm".spec_bytes()) == Category::Mov,
{
    reveal_strlit("stm");
    assert(ARM_MOV@[7] == "stm");
}

proof fn lemma_arm_word_push()
    ensures
        crate::instruction::spec_categorize_arm("push".spec_bytes()) == Category::Mov,
{
    reveal_strlit("push");
    assert(ARM_MOV@[8] == "push");
}

proof fn lemma_arm_word_pop()
    ensures
        crate::instruction::spec_categorize_arm("pop".spec_bytes()) == Category::Mov,
{
    reveal_strlit("pop");
    assert(ARM_MOV@[9] == "pop");
}

proof fn lemma_arm_word_ldrb()
    ensures
        crate::instruction::spec_categorize_arm("ldrb".spec_bytes()) == Category::Mov,
{
    reveal_strlit("ldrb");
    assert(ARM_MOV@[10] == "ldrb");
}

proof fn lemma_arm_word_strb()
    ensures
        crate::instruction::spec_categorize_arm("strb".spec_bytes()) == Category::Mov,
{
    reveal_strlit("strb");
    assert(ARM_MOV@[11] == "strb");
}

proof fn lemma_arm_word_ldrh()
    ensures
        crate::instruction::spec_categorize_arm("ldrh".spec_bytes()) == Category::Mov,
{
    reveal_strlit("ldrh");
    assert(ARM_MOV@[12] == "ldrh");
}

proof fn lemma_arm_word_strh()
    ensures
        crate::instruction::spec_categorize_arm("strh".spec_bytes()) == Category::Mov,
{
    reveal_strlit("strh");
    assert(ARM_MOV@[13] == "strh");
}

proof fn lemma_arm_mov_words(m: Seq<u8>)
    requires
        m == "mov".spec_bytes() || m == "movw".spec_bytes() || m == "movt".spec_bytes() || m == "mvn".spec_bytes() || m == "ldr".spec_bytes() || m == "str".spec_bytes() || m == "ldm".spec_bytes() || m == "stm".spec_bytes() || m == "push".spec_bytes() || m == "pop".spec_bytes() || m == "ldrb".spec_bytes() || m == "strb".spec_bytes() || m == "ldrh".spec_bytes() || m == "strh".spec_bytes(),
    ensures
        crate::instruction::spec_categorize_arm(m) == Category::Mov,
        crate::instruction::spec_categorize(m, ArchKind::Arm) == Category::Mov,
        crate::instruction::listing_counts(seq![Some(m)], ArchKind::Arm) == (1int, 1int, 0int, 0int, 0int, 0int),
{
    if m == "mov".spec_bytes() {
        lemma_arm_word_mov();
        reveal_strlit("mov");
        lemma_lower_fixed("mov");
    }
    if m == "movw".spec_bytes() {
        lemma_arm_word_movw();
        reveal_strlit("movw");
        lemma_lower_fixed("movw");
    }
    if m == "movt".spec_bytes() {
        lemma_arm_word_movt();
        reveal_strlit("movt");
        lemma_lower_fixed("movt");
    }
    if m == "mvn".spec_bytes() {
        lemma_arm_word_mvn();
        reveal_strlit("mvn");
        lemma_lower_fixed("mvn");
    }
    if m == "ldr".spec_bytes() {
        lemma_arm_word_ldr();
        reveal_strlit("ldr");
        lemma_lower_fixed("ldr");
    }
    if m == "str".spec_bytes() {
        lemma_arm_word_str();
        reveal_strlit("str");
        lemma_lower_fixed("str");
    }
    if m == "ldm".spec_bytes() {
        lemma_arm_word_ldm();
        reveal_strlit("ldm");
        lemma_lower_fixed("ldm");
    }
    if m == "stm".spec_bytes() {
        lemma_arm_word_stm();
        reveal_strlit("stm");
        lemma_lower_fixed("stm");
    }
    if m == "push".spec_bytes() {
        lemma_arm_word_push();
        reveal_strlit("push");
        lemma_lower_fixed("push");
    }
    if m == "pop".spec_bytes() {
        lemma_arm_word_pop();
        reveal_strlit("pop");
        lemma_lower_fixed("pop");
    }
    if m == "ldrb".spec_bytes() {
        lemma_arm_word_ldrb();
        reveal_strlit("ldrb");
        lemma_lower_fixed("ldrb");
    }
    if m == "strb".spec_bytes() {
        lemma_arm_word_strb();
        reveal_strlit("strb");
        lemma_lower_fixed("strb");
    }
    if m == "ldrh".spec_bytes() {
        lemma_arm_word_ldrh();
        reveal_strlit("ldrh");
        lemma_lower_fixed("ldrh");
    }
    if m == "strh".spec_bytes() {
        lemma_arm_word_strh();
        reveal_strlit("strh");
        lemma_lower_fixed("strh");
    }
    assert(seq![Some(m)].drop_last() =~= Seq::<Option<Seq<u8>>>::empty());
    assert(seq![Some(m)].last() == Some(m));
    assert(crate::instruction::listing_counts(Seq::<Option<Seq<u8>>>::empty(), ArchKind::Arm) == (0int, 0int, 0int, 0int, 0int, 0int));
}

proof fn lemma_arm_word_add()
    ensures
        crate::instruction::spec_categorize_arm("add".spec_bytes()) == Category::Arithmetic,
{
    reveal_strlit("add");
    assert(ARM_ARITHMETIC@[0] == "add");
    assert forall|k: int| 0 <= k < 14 implies #[trigger] ARM_MOV@[k].spec_bytes() != "add".spec_bytes() by {
        if k == 0 { assert(ARM_MOV@[0] == "mov"); reveal_strlit("mov"); assert("mov"@[0] != "add"@[0]); lemma_words_differ("mov", "add"); }
        if k == 1 { assert(ARM_MOV@[1] == "movw"); reveal_strlit("movw"); assert("movw"@.len() != "add"@.len()); lemma_words_differ("movw", "add"); }
        if k == 2 { assert(ARM_MOV@[2] == "movt"); reveal_strlit("movt"); assert("movt"@.len() != "add"@.len()); lemma_words_differ("movt", "add"); }
        if k == 3 { assert(ARM_MOV@[3] == "mvn"); reveal_strlit("mvn"); assert("mvn"@[0] != "add"@[0]); lemma_words_differ("mvn", "add"); }
        if k == 4 { assert(ARM_MOV@[4] == "ldr"); reveal_strlit("ldr"); assert("ldr"@[0] != "add"@[0]); lemma_words_differ("ldr", "add"); }
        if k == 5 { assert(ARM_MOV@[5] == "str"); reveal_strlit("str"); assert("str"@[0] != "add"@[0]); lemma_words_differ("str", "add"); }
        if k == 6 { assert(ARM_MOV@[6] == "ldm"); reveal_strlit("ldm"); assert("ldm"@[0] != "add"@[0]); lemma_words_differ("ldm", "add"); }
        if k == 7 { assert(ARM_MOV@[7] == "stm"); reveal_strlit("stm"); assert("stm"@[0] != "add"@[0]); lemma_words_differ("stm", "add"); }
        if k == 8 { assert(ARM_MOV@[8] == "push"); reveal_strlit("push"); assert("push"@.len() != "add"@.len()); lemma_words_differ("push", "add"); }
        if k == 9 { assert(ARM_MOV@[9] == "pop"); reveal_strlit("pop"); assert("pop"@[0] != "add"@[0]); lemma_words_differ("pop", "add"); }
        if k == 10 { assert(ARM_MOV@[10] == "ldrb"); reveal_strlit("ldrb"); assert("ldrb"@.len() != "add"@.len()); lemma_words_differ("ldrb", "add"); }
        if k == 11 { assert(ARM_MOV@[11] == "strb"); reveal_strlit("strb"); assert("strb"@.len() != "add"@.len()); lemma_words_differ("strb", "add"); }
        if k == 12 { assert(ARM_MOV@[12] == "ldrh"); reveal_strlit("ldrh"); assert("ldrh"@.len() != "add"@.len()); lemma_words_differ("ldrh", "add"); }
        if k == 13 { assert(ARM_MOV@[13] == "strh"); reveal_strlit("strh"); assert("strh"@.len() != "add"@.len()); lemma_words_differ("strh", "add"); }
    }
}

proof fn lemma_arm_word_sub()
    ensures
        crate::instruction::spec_categorize_arm("sub".spec_bytes()) == Category::Arithmetic,
{
    reveal_strlit("sub");
    assert(ARM_ARITHMETIC@[1] == "sub");
    assert forall|k: int| 0 <= k < 14 implies #[trigger] ARM_MOV@[k].spec_bytes() != "sub".spec_bytes() by {
        if k == 0 { assert(ARM_MOV@[0] == "mov"); reveal_strlit("mov"); assert("mov"@[0] != "sub"@[0]); lemma_words_differ("mov", "sub"); }
        if k == 1 { assert(ARM_MOV@[1] == "movw"); reveal_strlit("movw"); assert("movw"@.len() != "sub"@.len()); lemma_words_differ("movw", "sub"); }
        if k == 2 { assert(ARM_MOV@[2] == "movt"); reveal_strlit("movt"); assert("movt"@.len() != "sub"@.len()); lemma_words_differ("movt", "sub"); }
        if k == 3 { assert(ARM_MOV@[3] == "mvn"); reveal_strlit("mvn"); assert("mvn"@[0] != "sub"@[0]); lemma_words_differ("mvn", "sub"); }
        if k == 4 { assert(ARM_MOV@[4] == "ldr"); reveal_strlit("ldr"); assert("ldr"@[0] != "sub"@[0]); lemma_words_differ("ldr", "sub"); }
        if k == 5 { assert(ARM_MOV@[5] == "str"); reveal_strlit("str"); assert("str"@[1] != "sub"@[1]); lemma_words_differ("str", "sub"); }
        if k == 6 { assert(ARM_MOV@[6] == "ldm"); reveal_strlit("ldm"); assert("ldm"@[0] != "sub"@[0]); lemma_words_differ("ldm", "sub"); }
        if k == 7 { assert(ARM_MOV@[7] == "stm"); reveal_strlit("stm"); assert("stm"@[1] != "sub"@[1]); lemma_words_differ("stm", "sub"); }
        if k == 8 { assert(ARM_MOV@[8] == "push"); reveal_strlit("push"); assert("push"@.len() != "sub"@.len()); lemma_words_differ("push", "sub"); }
        if k == 9 { assert(ARM_MOV@[9] == "pop"); reveal_strlit("pop"); assert("pop"@[0] != "sub"@[0]); lemma_words_differ("pop", "sub"); }
        if k == 10 { assert(ARM_MOV@[10] == "ldrb"); reveal_strlit("ldrb"); assert("ldrb"@.len() != "sub"@.len()); lemma_words_differ("ldrb", "sub"); }
        if k == 11 { assert(ARM_MOV@[11] == "strb"); reveal_strlit("strb"); assert("strb"@.len() != "sub"@.len()); lemma_words_differ("strb", "sub"); }
        if k == 12 { assert(ARM_MOV@[12] == "ldrh"); reveal_strlit("ldrh"); assert("ldrh"@.len() != "sub"@.len()); lemma_words_differ("ldrh", "sub"); }
        if k == 13 { assert(ARM_MOV@[13] == "strh"); reveal_strlit("strh"); assert("strh"@.len() != "sub"@.len()); lemma_words_differ("strh", "sub"); }
    }
}

proof fn lemma_arm_word_mul()
    ensures
        crate::instruction::spec_categorize_arm("mul".spec_bytes()) == Category::Arithmetic,
{
    reveal_strlit("mul");
    assert(ARM_ARITHMETIC@[2] == "mul");
    assert forall|k: int| 0 <= k < 14 implies #[trigger] ARM_MOV@[k].spec_bytes() != "mul".spec_bytes() by {
        if k == 0 { assert(ARM_MOV@[0] == "mov"); reveal_strlit("mov"); assert("mov"@[1] != "mul"@[1]); lemma_words_differ("mov", "mul"); }
        if k == 1 { assert(ARM_MOV@[1] == "movw"); reveal_strlit("movw"); assert("movw"@.len() != "mul"@.len()); lemma_words_differ("movw", "mul"); }
        if k == 2 { assert(ARM_MOV@[2] == "movt"); reveal_strlit("movt"); assert("movt"@.len() != "mul"@.len()); lemma_words_differ("movt", "mul"); }
        if k == 3 { assert(ARM_MOV@[3] == "mvn"); reveal_strlit("mvn"); assert("mvn"@[1] != "mul"@[1]); lemma_words_differ("mvn", "mul"); }
        if k == 4 { assert(ARM_MOV@[4] == "ldr"); reveal_strlit("ldr"); assert("ldr"@[0] != "mul"@[0]); lemma_words_differ("ldr", "mul"); }
        if k == 5 { assert(ARM_MOV@[5] == "str"); reveal_strlit("str"); assert("str"@[0] != "mul"@[0]); lemma_words_differ("str", "mul"); }
        if k == 6 { assert(ARM_MOV@[6] == "ldm"); reveal_strlit("ldm"); assert("ldm"@[0] != "mul"@[0]); lemma_words_differ("ldm", "mul"); }
        if k == 7 { assert(ARM_MOV@[7] == "stm"); reveal_strlit("stm"); assert("stm"@[0] != "mul"@[0]); lemma_words_differ("stm", "mul"); }
        if k == 8 { assert(ARM_MOV@[8] == "push"); reveal_strlit("push"); assert("push"@.len() != "mul"@.len()); lemma_words_differ("push", "mul"); }
        if k == 9 { assert(ARM_MOV@[9] == "pop"); reveal_strlit("pop"); assert("pop"@[0] != "mul"@[0]); lemma_words_differ("pop", "mul"); }
        if k == 10 { assert(ARM_MOV@[10] == "ldrb"); reveal_strlit("ldrb"); assert("ldrb"@.len() != "mul"@.len()); lemma_words_differ("ldrb", "mul"); }
        if k == 11 { assert(ARM_MOV@[11] == "strb"); reveal_strlit("strb"); assert("strb"@.len() != "mul"@.len()); lemma_words_differ("strb", "mul"); }
        if k == 12 { assert(ARM_MOV@[12] == "ldrh"); reveal_strlit("ldrh"); assert("ldrh"@.len() != "mul"@.len()); lemma_words_differ("ldrh", "mul"); }
        if k == 13 { assert(ARM_MOV@[13] == "strh"); reveal_strlit("strh"); assert("strh"@.len() != "mul"@.len()); lemma_words_differ("strh", "mul"); }
    }
}

proof fn lemma_arm_word_mla()
    ensures
        crate::instruction::spec_categorize_arm("mla".spec_bytes()) == Category::Arithmetic,
{
    reveal_strlit("mla");
    assert(ARM_ARITHMETIC@[3] == "mla");
    assert forall|k: int| 0 <= k < 14 implies #[trigger] ARM_MOV@[k].spec_bytes() != "mla".spec_bytes() by {
        if k == 0 { assert(ARM_MOV@[0] == "mov"); reveal_strlit("mov"); assert("mov"@[1] != "mla"@[1]); lemma_words_differ("mov", "mla"); }
        if k == 1 { assert(ARM_MOV@[1] == "movw"); reveal_strlit("movw"); assert("movw"@.len() != "mla"@.len()); lemma_words_differ("movw", "mla"); }
        if k == 2 { assert(ARM_MOV@[2] == "movt"); reveal_strlit("movt"); assert("movt"@.len() != "mla"@.len()); lemma_words_differ("movt", "mla"); }
        if k == 3 { assert(ARM_MOV@[3] == "mvn"); reveal_strlit("mvn"); assert("mvn"@[1] != "mla"@[1]); lemma_words_differ("mvn", "mla"); }
        if k == 4 { assert(ARM_MOV@[4] == "ldr"); reveal_strlit("ldr"); assert("ldr"@[0] != "mla"@[0]); lemma_words_differ("ldr", "mla"); }
        if k == 5 { assert(ARM_MOV@[5] == "str"); reveal_strlit("str"); assert("str"@[0] != "mla"@[0]); lemma_words_differ("str", "mla"); }
        if k == 6 { assert(ARM_MOV@[6] == "ldm"); reveal_strlit("ldm"); assert("ldm"@[0] != "mla"@[0]); lemma_words_differ("ldm", "mla"); }
        if k == 7 { assert(ARM_MOV@[7] == "stm"); reveal_strlit("stm"); assert("stm"@[0] != "mla"@[0]); lemma_words_differ("stm", "mla"); }
        if k == 8 { assert(ARM_MOV@[8] == "push"); reveal_strlit("push"); assert("push"@.len() != "mla"@.len()); lemma_words_differ("push", "mla"); }
        if k == 9 { assert(ARM_MOV@[9] == "pop"); reveal_strlit("pop"); assert("pop"@[0] != "mla"@[0]); lemma_words_differ("pop", "mla"); }
        if k == 10 { assert(ARM_MOV@[10] == "ldrb"); reveal_strlit("ldrb"); assert("ldrb"@.len() != "mla"@.len()); lemma_words_differ("ldrb", "mla"); }
        if k == 11 { assert(ARM_MOV@[11] == "strb"); reveal_strlit("strb"); assert("strb"@.len() != "mla"@.len()); lemma_words_differ("strb", "mla"); }
        if k == 12 { assert(ARM_MOV@[12] == "ldrh"); reveal_strlit("ldrh"); assert("ldrh"@.len() != "mla"@.len()); lemma_words_differ("ldrh", "mla"); }
        if k == 13 { assert(ARM_MOV@[13] == "strh"); reveal_strlit("strh"); assert("strh"@.len() != "mla"@.len()); lemma_words_differ("strh", "mla"); }
    }
}

proof fn lemma_arm_word_sdiv()
    ensures
        crate::instruction::spec_categorize_arm("sdiv".spec_bytes()) == Category::Arithmetic,
{
    reveal_strlit("sdiv");
    assert(ARM_ARITHMETIC@[4] == "sdiv");
    assert forall|k: int| 0 <= k < 14 implies #[trigger] ARM_MOV@[k].spec_bytes() != "sdiv".spec_bytes() by {
        if k == 0 { assert(ARM_MOV@[0] == "mov"); reveal_strlit("mov"); assert("mov"@.len() != "sdiv"@.len()); lemma_words_differ("mov", "sdiv"); }
        if k == 1 { assert(ARM_MOV@[1] == "movw"); reveal_strlit("movw"); assert("movw"@[0] != "sdiv"@[0]); lemma_words_differ("movw", "sdiv"); }
        if k == 2 { assert(ARM_MOV@[2] == "movt"); reveal_strlit("movt"); assert("movt"@[0] != "sdiv"@[0]); lemma_words_differ("movt", "sdiv"); }
        if k == 3 { assert(ARM_MOV@[3] == "mvn"); reveal_strlit("mvn"); assert("mvn"@.len() != "sdiv"@.len()); lemma_words_differ("mvn", "sdiv"); }
        if k == 4 { assert(ARM_MOV@[4] == "ldr"); reveal_strlit("ldr"); assert("ldr"@.len() != "sdiv"@.len()); lemma_words_differ("ldr", "sdiv"); }
        if k == 5 { assert(ARM_MOV@[5] == "str"); reveal_strlit("str"); assert("str"@.len() != "sdiv"@.len()); lemma_words_differ("str", "sdiv"); }
        if k == 6 { assert(ARM_MOV@[6] == "ldm"); reveal_strlit("ldm"); assert("ldm"@.len() != "sdiv"@.len()); lemma_words_differ("ldm", "sdiv"); }
        if k == 7 { assert(ARM_MOV@[7] == "stm"); reveal_strlit("stm"); assert("stm"@.len() != "sdiv"@.len()); lemma_words_differ("stm", "sdiv"); }
        if k == 8 { assert(ARM_MOV@[8] == "push"); reveal_strlit("push"); assert("push"@[0] != "sdiv"@[0]); lemma_words_differ("push", "sdiv"); }
        if k == 9 { assert(ARM_MOV@[9] == "pop"); reveal_strlit("pop"); assert("pop"@.len() != "sdiv"@.len()); lemma_words_differ("pop", "sdiv"); }
        if k == 10 { assert(ARM_MOV@[10] == "ldrb"); reveal_strlit("ldrb"); assert("ldrb"@[0] != "sdiv"@[0]); lemma_words_differ("ldrb", "sdiv"); }
        if k == 11 { assert(ARM_MOV@[11] == "strb"); reveal_strlit("strb"); assert("strb"@[1] != "sdiv"@[1]); lemma_words_differ("strb", "sdiv"); }
        if k == 12 { assert(ARM_MOV@[12] == "ldrh"); reveal_strlit("ldrh"); assert("ldrh"@[0] != "sdiv"@[0]); lemma_words_differ("ldrh", "sdiv"); }
        if k == 13 { assert(ARM_MOV@[13] == "strh"); reveal_strlit("strh"); assert("strh"@[1] != "sdiv"@[1]); lemma_words_differ("strh", "sdiv"); }
    }
}

proof fn lemma_arm_word_udiv()
    ensures
        crate::instruction::spec_categorize_arm("udiv".spec_bytes()) == Category::Arithmetic,
{
    reveal_strlit("udiv");
    assert(ARM_ARITHMETIC@[5] == "udiv");
    assert forall|k: int| 0 <= k < 14 implies #[trigger] ARM_MOV@[k].spec_bytes() != "udiv".spec_bytes() by {
        if k == 0 { assert(ARM_MOV@[0] == "mov"); reveal_strlit("mov"); assert("mov"@.len() != "udiv"@.len()); lemma_words_differ("mov", "udiv"); }
        if k == 1 { assert(ARM_MOV@[1] == "movw"); reveal_strlit("movw"); assert("movw"@[0] != "udiv"@[0]); lemma_words_differ("movw", "udiv"); }
        if k == 2 { assert(ARM_MOV@[2] == "movt"); reveal_strlit("movt"); assert("movt"@[0] != "udiv"@[0]); lemma_words_differ("movt", "udiv"); }
        if k == 3 { assert(ARM_MOV@[3] == "mvn"); reveal_strlit("mvn"); assert("mvn"@.len() != "udiv"@.len()); lemma_words_differ("mvn", "udiv"); }
        if k == 4 { assert(ARM_MOV@[4] == "ldr"); reveal_strlit("ldr"); assert("ldr"@.len() != "udiv"@.len()); lemma_words_differ("ldr", "udiv"); }
        if k == 5 { assert(ARM_MOV@[5] == "str"); reveal_strlit("str"); assert("str"@.len() != "udiv"@.len()); lemma_words_differ("str", "udiv"); }
        if k == 6 { assert(ARM_MOV@[6] == "ldm"); reveal_strlit("ldm"); assert("ldm"@.len() != "udiv"@.len()); lemma_words_differ("ldm", "udiv"); }
        if k == 7 { assert(ARM_MOV@[7] == "stm"); reveal_strlit("stm"); assert("stm"@.len() != "udiv"@.len()); lemma_words_differ("stm", "udiv"); }
        if k == 8 { assert(ARM_MOV@[8] == "push"); reveal_strlit("push"); assert("push"@[0] != "udiv"@[0]); lemma_words_differ("push", "udiv"); }
        if k == 9 { assert(ARM_MOV@[9] == "pop"); reveal_strlit("pop"); assert("pop"@.len() != "udiv"@.len()); lemma_words_differ("pop", "udiv"); }
        if k == 10 { assert(ARM_MOV@[10] == "ldrb"); reveal_strlit("ldrb"); assert("ldrb"@[0] != "udiv"@[0]); lemma_words_differ("ldrb", "udiv"); }
        if k == 11 { assert(ARM_MOV@[11] == "strb"); reveal_strlit("strb"); assert("strb"@[0] != "udiv"@[0]); lemma_words_differ("strb", "udiv"); }
        if k == 12 { assert(ARM_MOV@[12] == "ldrh"); reveal_strlit("ldrh"); assert("ldrh"@[0] != "udiv"@[0]); lemma_words_differ("ldrh", "udiv"); }
        if k == 13 { assert(ARM_MOV@[13] == "strh"); reveal_strlit("strh"); assert("strh"@[0] != "udiv"@[0]); lemma_words_differ("strh", "udiv"); }
    }
}

proof fn lemma_arm_word_adc()
    ensures
        crate::instruction::spec_categorize_arm("adc".spec_bytes()) == Category::Arithmetic,
{
    reveal_strlit("adc");
    assert(ARM_ARITHMETIC@[6] == "adc");
    assert forall|k: int| 0 <= k < 14 implies #[trigger] ARM_MOV@[k].spec_bytes() != "adc".spec_bytes() by {
        if k == 0 { assert(ARM_MOV@[0] == "mov"); reveal_strlit("mov"); assert("mov"@[0] != "adc"@[0]); lemma_words_differ("mov", "adc"); }
        if k == 1 { assert(ARM_MOV@[1] == "movw"); reveal_strlit("movw"); assert("movw"@.len() != "adc"@.len()); lemma_words_differ("movw", "adc"); }
        if k == 2 { assert(ARM_MOV@[2] == "movt"); reveal_strlit("movt"); assert("movt"@.len() != "adc"@.len()); lemma_words_differ("movt", "adc"); }
        if k == 3 { assert(ARM_MOV@[3] == "mvn"); reveal_strlit("mvn"); assert("mvn"@[0] != "adc"@[0]); lemma_words_differ("mvn", "adc"); }
        if k == 4 { assert(ARM_MOV@[4] == "ldr"); reveal_strlit("ldr"); assert("ldr"@[0] != "adc"@[0]); lemma_words_differ("ldr", "adc"); }
        if k == 5 { assert(ARM_MOV@[5] == "str"); reveal_strlit("str"); assert("str"@[0] != "adc"@[0]); lemma_words_differ("str", "adc"); }
        if k == 6 { assert(ARM_MOV@[6] == "ldm"); reveal_strlit("ldm"); assert("ldm"@[0] != "adc"@[0]); lemma_words_differ("ldm", "adc"); }
        if k == 7 { assert(ARM_MOV@[7] == "stm"); reveal_strlit("stm"); assert("stm"@[0] != "adc"@[0]); lemma_words_differ("stm", "adc"); }
        if k == 8 { assert(ARM_MOV@[8] == "push"); reveal_strlit("push"); assert("push"@.len() != "adc"@.len()); lemma_words_differ("push", "adc"); }
        if k == 9 { assert(ARM_MOV@[9] == "pop"); reveal_strlit("pop"); assert("pop"@[0] != "adc"@[0]); lemma_words_differ("pop", "adc"); }
        if k == 10 { assert(ARM_MOV@[10] == "ldrb"); reveal_strlit("ldrb"); assert("ldrb"@.len() != "adc"@.len()); lemma_words_differ("ldrb", "adc"); }
        if k == 11 { assert(ARM_MOV@[11] == "strb"); reveal_strlit("strb"); assert("strb"@.len() != "adc"@.len()); lemma_words_differ("strb", "adc"); }
        if k == 12 { assert(ARM_MOV@[12] == "ldrh"); reveal_strlit("ldrh"); assert("ldrh"@.len() != "adc"@.len()); lemma_words_differ("ldrh", "adc"); }
        if k == 13 { assert(ARM_MOV@[13] == "strh"); reveal_strlit("strh"); assert("strh"@.len() != "adc"@.len()); lemma_words_differ("strh", "adc"); }
    }
}

proof fn lemma_arm_word_sbc()
    ensures
        crate::instruction::spec_categorize_arm("sbc".spec_bytes()) == Category::Arithmetic,
{
    reveal_strlit("sbc");
    assert(ARM_ARITHMETIC@[7] == "sbc");
    assert forall|k: int| 0 <= k < 14 implies #[trigger] ARM_MOV@[k].spec_bytes() != "sbc".spec_bytes() by {
        if k == 0 { assert(ARM_MOV@[0] == "mov"); reveal_strlit("mov"); assert("mov"@[0] != "sbc"@[0]); lemma_words_differ("mov", "sbc"); }
        if k == 1 { assert(ARM_MOV@[1] == "movw"); reveal_strlit("movw"); assert("movw"@.len() != "sbc"@.len()); lemma_words_differ("movw", "sbc"); }
        if k == 2 { assert(ARM_MOV@[2] == "movt"); reveal_strlit("movt"); assert("movt"@.len() != "sbc"@.len()); lemma_words_differ("movt", "sbc"); }
        if k == 3 { assert(ARM_MOV@[3] == "mvn"); reveal_strlit("mvn"); assert("mvn"@[0] != "sbc"@[0]); lemma_words_differ("mvn", "sbc"); }
        if k == 4 { assert(ARM_MOV@[4] == "ldr"); reveal_strlit("ldr"); assert("ldr"@[0] != "sbc"@[0]); lemma_words_differ("ldr", "sbc"); }
        if k == 5 { assert(ARM_MOV@[5] == "str"); reveal_strlit("str"); assert("str"@[1] != "sbc"@[1]); lemma_words_differ("str", "sbc"); }
        if k == 6 { assert(ARM_MOV@[6] == "ldm"); reveal_strlit("ldm"); assert("ldm"@[0] != "sbc"@[0]); lemma_words_differ("ldm", "sbc"); }
        if k == 7 { assert(ARM_MOV@[7] == "stm"); reveal_strlit("stm"); assert("stm"@[1] != "sbc"@[1]); lemma_words_differ("stm", "sbc"); }
        if k == 8 { assert(ARM_MOV@[8] == "push"); reveal_strlit("push"); assert("push"@.len() != "sbc"@.len()); lemma_words_differ("push", "sbc"); }
        if k == 9 { assert(ARM_MOV@[9] == "pop"); reveal_strlit("pop"); assert("pop"@[0] != "sbc"@[0]); lemma_words_differ("pop", "sbc"); }
        if k == 10 { assert(ARM_MOV@[10] == "ldrb"); reveal_strlit("ldrb"); assert("ldrb"@.len() != "sbc"@.len()); lemma_words_differ("ldrb", "sbc"); }
        if k == 11 { assert(ARM_MOV@[11] == "strb"); reveal_strlit("strb"); assert("strb"@.len() != "sbc"@.len()); lemma_words_differ("strb", "sbc"); }
        if k == 12 { assert(ARM_MOV@[12] == "ldrh"); reveal_strlit("ldrh"); assert("ldrh"@.len() != "sbc"@.len()); lemma_words_differ("ldrh", "sbc"); }
        if k == 13 { assert(ARM_MOV@[13] == "strh"); reveal_strlit("strh"); assert("strh"@.len() != "sbc"@.len()); lemma_words_differ("strh", "sbc"); }
    }
}

proof fn lemma_arm_word_rsb()
    ensures
        crate::instruction::spec_categorize_arm("rsb".spec_bytes()) == Category::Arithmetic,
{
    reveal_strlit("rsb");
    assert(ARM_ARITHMETIC@[8] == "rsb");
    assert forall|k: int| 0 <= k < 14 implies #[trigger] ARM_MOV@[k].spec_bytes() != "rsb".spec_bytes() by {
        if k == 0 { assert(ARM_MOV@[0] == "mov"); reveal_strlit("mov"); assert("mov"@[0] != "rsb"@[0]); lemma_words_differ("mov", "rsb"); }
        if k == 1 { assert(ARM_MOV@[1] == "movw"); reveal_strlit("movw"); assert("movw"@.len() != "rsb"@.len()); lemma_words_differ("movw", "rsb"); }
        if k == 2 { assert(ARM_MOV@[2] == "movt"); reveal_strlit("movt"); assert("movt"@.len() != "rsb"@.len()); lemma_words_differ("movt", "rsb"); }
        if k == 3 { assert(ARM_MOV@[3] == "mvn"); reveal_strlit("mvn"); assert("mvn"@[0] != "rsb"@[0]); lemma_words_differ("mvn", "rsb"); }
        if k == 4 { assert(ARM_MOV@[4] == "ldr"); reveal_strlit("ldr"); assert("ldr"@[0] != "rsb"@[0]); lemma_words_differ("ldr", "rsb"); }
        if k == 5 { assert(ARM_MOV@[5] == "str"); reveal_strlit("str"); assert("str"@[0] != "rsb"@[0]); lemma_words_differ("str", "rsb"); }
        if k == 6 { assert(ARM_MOV@[6] == "ldm"); reveal_strlit("ldm"); assert("ldm"@[0] != "rsb"@[0]); lemma_words_differ("ldm", "rsb"); }
        if k == 7 { assert(ARM_MOV@[7] == "stm"); reveal_strlit("stm"); assert("stm"@[0] != "rsb"@[0]); lemma_words_differ("stm", "rsb"); }
        if k == 8 { assert(ARM_MOV@[8] == "push"); reveal_strlit("push"); assert("push"@.len() != "rsb"@.len()); lemma_words_differ("push", "rsb"); }
        if k == 9 { assert(ARM_MOV@[9] == "pop"); reveal_strlit("pop"); assert("pop"@[0] != "rsb"@[0]); lemma_words_differ("pop", "rsb"); }
        if k == 10 { assert(ARM_MOV@[10] == "ldrb"); reveal_strlit("ldrb"); assert("ldrb"@.len() != "rsb"@.len()); lemma_words_differ("ldrb", "rsb"); }
        if k == 11 { assert(ARM_MOV@[11] == "strb"); reveal_strlit("strb"); assert("strb"@.len() != "rsb"@.len()); lemma_words_differ("strb", "rsb"); }
        if k == 12 { assert(ARM_MOV@[12] == "ldrh"); reveal_strlit("ldrh"); assert("ldrh"@.len() != "rsb"@.len()); lemma_words_differ("ldrh", "rsb"); }
        if k == 13 { assert(ARM_MOV@[13] == "strh"); reveal_strlit("strh"); assert("strh"@.len() != "rsb"@.len()); lemma_words_differ("strh", "rsb"); }
    }
}

proof fn lemma_arm_arithmetic_words(m: Seq<u8>)
    requires
        m == "add".spec_bytes() || m == "sub".spec_bytes() || m == "mul".spec_bytes() || m == "mla".spec_bytes() || m == "sdiv".spec_bytes() || m == "udiv".spec_bytes() || m == "adc".spec_bytes() || m == "sbc".spec_bytes() || m == "rsb".spec_bytes(),
    ensures
        crate::instruction::spec_categorize_arm(m) == Category::Arithmetic,
        crate::instruction::spec_categorize(m, ArchKind::Arm) == Category::Arithmetic,
        crate::instruction::listing_counts(seq![Some(m)], ArchKind::Arm) == (1int, 0int, 1int, 0int, 0int, 0int),
{
    if m == "add".spec_bytes() {
        lemma_arm_word_add();
        reveal_strlit("add");
        lemma_lower_fixed("add");
    }
    if m == "sub".spec_bytes() {
        lemma_arm_word_sub();
        reveal_strlit("sub");
        lemma_lower_fixed("sub");
    }
    if m == "mul".spec_bytes() {
        lemma_arm_word_mul();
        reveal_strlit("mul");
        lemma_lower_fixed("mul");
    }
    if m == "mla".spec_bytes() {
        lemma_arm_word_mla();
        reveal_strlit("mla");
        lemma_lower_fixed("mla");
    }
    if m == "sdiv".spec_bytes() {
        lemma_arm_word_sdiv();
        reveal_strlit("sdiv");
        lemma_lower_fixed("sdiv");
    }
    if m == "udiv".spec_bytes() {
        lemma_arm_word_udiv();
        reveal_strlit("udiv");
        lemma_lower_fixed("udiv");
    }
    if m == "adc".spec_bytes() {
        lemma_arm_word_adc();
        reveal_strlit("adc");
        lemma_lower_fixed("adc");
    }
    if m == "sbc".spec_bytes() {
        lemma_arm_word_sbc();
        reveal_strlit("sbc");
        lemma_lower_fixed("sbc");
    }
    if m == "rsb".spec_bytes() {
        lemma_arm_word_rsb();
        reveal_strlit("rsb");
        lemma_lower_fixed("rsb");
    }
    assert(seq![Some(m)].drop_last() =~= Seq::<Option<Seq<u8>>>::empty());
    assert(seq![Some(m)].last() == Some(m));
    assert(crate::instruction::listing_counts(Seq::<Option<Seq<u8>>>::empty(), ArchKind::Arm) == (0int, 0int, 0int, 0int, 0int, 0int));
}

proof fn lemma_arm_word_and()
    ensures
        crate::instruction::spec_categorize_arm("and".spec_bytes()) == Category::Logic,
{
    reveal_strlit("and");
    assert(ARM_LOGIC@[0] == "and");
    assert forall|k: int| 0 <= k < 14 implies #[trigger] ARM_MOV@[k].spec_bytes() != "and".spec_bytes() by {
        if k == 0 { assert(ARM_MOV@[0] == "mov"); reveal_strlit("mov"); assert("mov"@[0] != "and"@[0]); lemma_words_differ("mov", "and"); }
        if k == 1 { assert(ARM_MOV@[1] == "movw"); reveal_strlit("movw"); assert("movw"@.len() != "and"@.len()); lemma_words_differ("movw", "and"); }
        if k == 2 { assert(ARM_MOV@[2] == "movt"); reveal_strlit("movt"); assert("movt"@.len() != "and"@.len()); lemma_words_differ("movt", "and"); }
        if k == 3 { assert(ARM_MOV@[3] == "mvn"); reveal_strlit("mvn"); assert("mvn"@[0] != "and"@[0]); lemma_words_differ("mvn", "and"); }
        if k == 4 { assert(ARM_MOV@[4] == "ldr"); reveal_strlit("ldr"); assert("ldr"@[0] != "and"@[0]); lemma_words_differ("ldr", "and"); }
        if k == 5 { assert(ARM_MOV@[5] == "str"); reveal_strlit("str"); assert("str"@[0] != "and"@[0]); lemma_words_differ("str", "and"); }
        if k == 6 { assert(ARM_MOV@[6] == "ldm"); reveal_strlit("ldm"); assert("ldm"@[0] != "and"@[0]); lemma_words_differ("ldm", "and"); }
        if k == 7 { assert(ARM_MOV@[7] == "stm"); reveal_strlit("stm"); assert("stm"@[0] != "and"@[0]); lemma_words_differ("stm", "and"); }
        if k == 8 { assert(ARM_MOV@[8] == "push"); reveal_strlit("push"); assert("push"@.len() != "and"@.len()); lemma_words_differ("push", "and"); }
        if k == 9 { assert(ARM_MOV@[9] == "pop"); reveal_strlit("pop"); assert("pop"@[0] != "and"@[0]); lemma_words_differ("pop", "and"); }
        if k == 10 { assert(ARM_MOV@[10] == "ldrb"); reveal_strlit("ldrb"); assert("ldrb"@.len() != "and"@.len()); lemma_words_differ("ldrb", "and"); }
        if k == 11 { assert(ARM_MOV@[11] == "strb"); reveal_strlit("strb"); assert("strb"@.len() != "and"@.len()); lemma_words_differ("strb", "and"); }
        if k == 12 { assert(ARM_MOV@[12] == "ldrh"); reveal_strlit("ldrh"); assert("ldrh"@.len() != "and"@.len()); lemma_words_differ("ldrh", "and"); }
        if k == 13 { assert(ARM_MOV@[13] == "strh"); reveal_strlit("strh"); assert("strh"@.len() != "and"@.len()); lemma_words_differ("strh", "and"); }
    }
    assert forall|k: int| 0 <= k < 9 implies #[trigger] ARM_ARITHMETIC@[k].spec_bytes() != "and".spec_bytes() by {
        if k == 0 { assert(ARM_ARITHMETIC@[0] == "add"); reveal_strlit("add"); assert("add"@[1] != "and"@[1]); lemma_words_differ("add", "and"); }
        if k == 1 { assert(ARM_ARITHMETIC@[1] == "sub"); reveal_strlit("sub"); assert("sub"@[0] != "and"@[0]); lemma_words_differ("sub", "and"); }
        if k == 2 { assert(ARM_ARITHMETIC@[2] == "mul"); reveal_strlit("mul"); assert("mul"@[0] != "and"@[0]); lemma_words_differ("mul", "and"); }
        if k == 3 { assert(ARM_ARITHMETIC@[3] == "mla"); reveal_strlit("mla"); assert("mla"@[0] != "and"@[0]); lemma_words_differ("mla", "and"); }
        if k == 4 { assert(ARM_ARITHMETIC@[4] == "sdiv"); reveal_strlit("sdiv"); assert("sdiv"@.len() != "and"@.len()); lemma_words_differ("sdiv", "and"); }
        if k == 5 { assert(ARM_ARITHMETIC@[5] == "udiv"); reveal_strlit("udiv"); assert("udiv"@.len() != "and"@.len()); lemma_words_differ("udiv", "and"); }
        if k == 6 { assert(ARM_ARITHMETIC@[6] == "adc"); reveal_strlit("adc"); assert("adc"@[1] != "and"@[1]); lemma_words_differ("adc", "and"); }
        if k == 7 { assert(ARM_ARITHMETIC@[7] == "sbc"); reveal_strlit("sbc"); assert("sbc"@[0] != "and"@[0]); lemma_words_differ("sbc", "and"); }
        if k == 8 { assert(ARM_ARITHMETIC@[8] == "rsb"); reveal_strlit("rsb"); assert("rsb"@[0] != "and"@[0]); lemma_words_differ("rsb", "and"); }
    }
}

proof fn lemma_arm_word_orr()
    ensures
        crate::instruction::spec_categorize_arm("orr".spec_bytes()) == Category::Logic,
{
    reveal_strlit("orr");
    assert(ARM_LOGIC@[1] == "orr");
    assert forall|k: int| 0 <= k < 14 implies #[trigger] ARM_MOV@[k].spec_bytes() != "orr".spec_bytes() by {
        if k == 0 { assert(ARM_MOV@[0] == "mov"); reveal_strlit("mov"); assert("mov"@[0] != "orr"@[0]); lemma_words_differ("mov", "orr"); }
        if k == 1 { assert(ARM_MOV@[1] == "movw"); reveal_strlit("movw"); assert("movw"@.len() != "orr"@.len()); lemma_words_differ("movw", "orr"); }
        if k == 2 { assert(ARM_MOV@[2] == "movt"); reveal_strlit("movt"); assert("movt"@.len() != "orr"@.len()); lemma_words_differ("movt", "orr"); }
        if k == 3 { assert(ARM_MOV@[3] == "mvn"); reveal_strlit("mvn"); assert("mvn"@[0] != "orr"@[0]); lemma_words_differ("mvn", "orr"); }
        if k == 4 { assert(ARM_MOV@[4] == "ldr"); reveal_strlit("ldr"); assert("ldr"@[0] != "orr"@[0]); lemma_words_differ("ldr", "orr"); }
        if k == 5 { assert(ARM_MOV@[5] == "str"); reveal_strlit("str"); assert("str"@[0] != "orr"@[0]); lemma_words_differ("str", "orr"); }
        if k == 6 { assert(ARM_MOV@[6] == "ldm"); reveal_strlit("ldm"); assert("ldm"@[0] != "orr"@[0]); lemma_words_differ("ldm", "orr"); }
        if k == 7 { assert(ARM_MOV@[7] == "stm"); reveal_strlit("stm"); assert("stm"@[0] != "orr"@[0]); lemma_words_differ("stm", "orr"); }
        if k == 8 { assert(ARM_MOV@[8] == "push"); reveal_strlit("push"); assert("push"@.len() != "orr"@.len()); lemma_words_differ("push", "orr"); }
        if k == 9 { assert(ARM_MOV@[9] == "pop"); reveal_strlit("pop"); assert("pop"@[0] != "orr"@[0]); lemma_words_differ("pop", "orr"); }
        if k == 10 { assert(ARM_MOV@[10] == "ldrb"); reveal_strlit("ldrb"); assert("ldrb"@.len() != "orr"@.len()); lemma_words_differ("ldrb", "orr"); }
        if k == 11 { assert(ARM_MOV@[11] == "strb"); reveal_strlit("strb"); assert("strb"@.len() != "orr"@.len()); lemma_words_differ("strb", "orr"); }
        if k == 12 { assert(ARM_MOV@[12] == "ldrh"); reveal_strlit("ldrh"); assert("ldrh"@.len() != "orr"@.len()); lemma_words_differ("ldrh", "orr"); }
        if k == 13 { assert(ARM_MOV@[13] == "strh"); reveal_strlit("strh"); assert("strh"@.len() != "orr"@.len()); lemma_words_differ("strh", "orr"); }
    }
    assert forall|k: int| 0 <= k < 9 implies #[trigger] ARM_ARITHMETIC@[k].spec_bytes() != "orr".spec_bytes() by {
        if k == 0 { assert(ARM_ARITHMETIC@[0] == "add"); reveal_strlit("add"); assert("add"@[0] != "orr"@[0]); lemma_words_differ("add", "orr"); }
        if k == 1 { assert(ARM_ARITHMETIC@[1] == "sub"); reveal_strlit("sub"); assert("sub"@[0] != "orr"@[0]); lemma_words_differ("sub", "orr"); }
        if k == 2 { assert(ARM_ARITHMETIC@[2] == "mul"); reveal_strlit("mul"); assert("mul"@[0] != "orr"@[0]); lemma_words_differ("mul", "orr"); }
        if k == 3 { assert(ARM_ARITHMETIC@[3] == "mla"); reveal_strlit("mla"); assert("mla"@[0] != "orr"@[0]); lemma_words_differ("mla", "orr"); }
        if k == 4 { assert(ARM_ARITHMETIC@[4] == "sdiv"); reveal_strlit("sdiv"); assert("sdiv"@.len() != "orr"@.len()); lemma_words_differ("sdiv", "orr"); }
        if k == 5 { assert(ARM_ARITHMETIC@[5] == "udiv"); reveal_strlit("udiv"); assert("udiv"@.len() != "orr"@.len()); lemma_words_differ("udiv", "orr"); }
        if k == 6 { assert(ARM_ARITHMETIC@[6] == "adc"); reveal_strlit("adc"); assert("adc"@[0] != "orr"@[0]); lemma_words_differ("adc", "orr"); }
        if k == 7 { assert(ARM_ARITHMETIC@[7] == "sbc"); reveal_strlit("sbc"); assert("sbc"@[0] != "orr"@[0]); lemma_words_differ("sbc", "orr"); }
        if k == 8 { assert(ARM_ARITHMETIC@[8] == "rsb"); reveal_strlit("rsb"); assert("rsb"@[0] != "orr"@[0]); lemma_words_differ("rsb", "orr"); }
    }
}

proof fn lemma_arm_word_eor()
    ensures
        crate::instruction::spec_categorize_arm("eor".spec_bytes()) == Category::Logic,
{
    reveal_strlit("eor");
    assert(ARM_LOGIC@[2] == "eor");
    assert forall|k: int| 0 <= k < 14 implies #[trigger] ARM_MOV@[k].spec_bytes() != "eor".spec_bytes() by {
        if k == 0 { assert(ARM_MOV@[0] == "mov"); reveal_strlit("mov"); assert("mov"@[0] != "eor"@[0]); lemma_words_differ("mov", "eor"); }
        if k == 1 { assert(ARM_MOV@[1] == "movw"); reveal_strlit("movw"); assert("movw"@.len() != "eor"@.len()); lemma_words_differ("movw", "eor"); }
        if k == 2 { assert(ARM_MOV@[2] == "movt"); reveal_strlit("movt"); assert("movt"@.len() != "eor"@.len()); lemma_words_differ("movt", "eor"); }
        if k == 3 { assert(ARM_MOV@[3] == "mvn"); reveal_strlit("mvn"); assert("mvn"@[0] != "eor"@[0]); lemma_words_differ("mvn", "eor"); }
        if k == 4 { assert(ARM_MOV@[4] == "ldr"); reveal_strlit("ldr"); assert("ldr"@[0] != "eor"@[0]); lemma_words_differ("ldr", "eor"); }
        if k == 5 { assert(ARM_MOV@[5] == "str"); reveal_strlit("str"); assert("str"@[0] != "eor"@[0]); lemma_words_differ("str", "eor"); }
        if k == 6 { assert(ARM_MOV@[6] == "ldm"); reveal_strlit("ldm"); assert("ldm"@[0] != "eor"@[0]); lemma_words_differ("ldm", "eor"); }
        if k == 7 { assert(ARM_MOV@[7] == "stm"); reveal_strlit("stm"); assert("stm"@[0] != "eor"@[0]); lemma_words_differ("stm", "eor"); }
        if k == 8 { assert(ARM_MOV@[8] == "push"); reveal_strlit("push"); assert("push"@.len() != "eor"@.len()); lemma_words_differ("push", "eor"); }
        if k == 9 { assert(ARM_MOV@[9] == "pop"); reveal_strlit("pop"); assert("pop"@[0] != "eor"@[0]); lemma_words_differ("pop", "eor"); }
        if k == 10 { assert(ARM_MOV@[10] == "ldrb"); reveal_strlit("ldrb"); assert("ldrb"@.len() != "eor"@.len()); lemma_words_differ("ldrb", "eor"); }
        if k == 11 { assert(ARM_MOV@[11] == "strb"); reveal_strlit("strb"); assert("strb"@.len() != "eor"@.len()); lemma_words_differ("strb", "eor"); }
        if k == 12 { assert(ARM_MOV@[12] == "ldrh"); reveal_strlit("ldrh"); assert("ldrh"@.len() != "eor"@.len()); lemma_words_differ("ldrh", "eor"); }
        if k == 13 { assert(ARM_MOV@[13] == "strh"); reveal_strlit("strh"); assert("strh"@.len() != "eor"@.len()); lemma_words_differ("strh", "eor"); }
    }
    assert forall|k: int| 0 <= k < 9 implies #[trigger] ARM_ARITHMETIC@[k].spec_bytes() != "eor".spec_bytes() by {
        if k == 0 { assert(ARM_ARITHMETIC@[0] == "add"); reveal_strlit("add"); assert("add"@[0] != "eor"@[0]); lemma_words_differ("add", "eor"); }
        if k == 1 { assert(ARM_ARITHMETIC@[1] == "sub"); reveal_strlit("sub"); assert("sub"@[0] != "eor"@[0]); lemma_words_differ("sub", "eor"); }
        if k == 2 { assert(ARM_ARITHMETIC@[2] == "mul"); reveal_strlit("mul"); assert("mul"@[0] != "eor"@[0]); lemma_words_differ("mul", "eor"); }
        if k == 3 { assert(ARM_ARITHMETIC@[3] == "mla"); reveal_strlit("mla"); assert("mla"@[0] != "eor"@[0]); lemma_words_differ("mla", "eor"); }
        if k == 4 { assert(ARM_ARITHMETIC@[4] == "sdiv"); reveal_strlit("sdiv"); assert("sdiv"@.len() != "eor"@.len()); lemma_words_differ("sdiv", "eor"); }
        if k == 5 { assert(ARM_ARITHMETIC@[5] == "udiv"); reveal_strlit("udiv"); assert("udiv"@.len() != "eor"@.len()); lemma_words_differ("udiv", "eor"); }
        if k == 6 { assert(ARM_ARITHMETIC@[6] == "adc"); reveal_strlit("adc"); assert("adc"@[0] != "eor"@[0]); lemma_words_differ("adc", "eor"); }
        if k == 7 { assert(ARM_ARITHMETIC@[7] == "sbc"); reveal_strlit("sbc"); assert("sbc"@[0] != "eor"@[0]); lemma_words_differ("sbc", "eor"); }
        if k == 8 { assert(ARM_ARITHMETIC@[8] == "rsb"); reveal_strlit("rsb"); assert("rsb"@[0] != "eor"@[0]); lemma_words_differ("rsb", "eor"); }
    }
}

proof fn lemma_arm_word_bic()
    ensures
        crate::instruction::spec_categorize_arm("bic".spec_bytes()) == Category::Logic,
{
    reveal_strlit("bic");
    assert(ARM_LOGIC@[3] == "bic");
    assert forall|k: int| 0 <= k < 14 implies #[trigger] ARM_MOV@[k].spec_bytes() != "bic".spec_bytes() by {
        if k == 0 { assert(ARM_MOV@[0] == "mov"); reveal_strlit("mov"); assert("mov"@[0] != "bic"@[0]); lemma_words_differ("mov", "bic"); }
        if k == 1 { assert(ARM_MOV@[1] == "movw"); reveal_strlit("movw"); assert("movw"@.len() != "bic"@.len()); lemma_words_differ("movw", "bic"); }
        if k == 2 { assert(ARM_MOV@[2] == "movt"); reveal_strlit("movt"); assert("movt"@.len() != "bic"@.len()); lemma_words_differ("movt", "bic"); }
        if k == 3 { assert(ARM_MOV@[3] == "mvn"); reveal_strlit("mvn"); assert("mvn"@[0] != "bic"@[0]); lemma_words_differ("mvn", "bic"); }
        if k == 4 { assert(ARM_MOV@[4] == "ldr"); reveal_strlit("ldr"); assert("ldr"@[0] != "bic"@[0]); lemma_words_differ("ldr", "bic"); }
        if k == 5 { assert(ARM_MOV@[5] == "str"); reveal_strlit("str"); assert("str"@[0] != "bic"@[0]); lemma_words_differ("str", "bic"); }
        if k == 6 { assert(ARM_MOV@[6] == "ldm"); reveal_strlit("ldm"); assert("ldm"@[0] != "bic"@[0]); lemma_words_differ("ldm", "bic"); }
        if k == 7 { assert(ARM_MOV@[7] == "stm"); reveal_strlit("stm"); assert("stm"@[0] != "bic"@[0]); lemma_words_differ("stm", "bic"); }
        if k == 8 { assert(ARM_MOV@[8] == "push"); reveal_strlit("push"); assert("push"@.len() != "bic"@.len()); lemma_words_differ("push", "bic"); }
        if k == 9 { assert(ARM_MOV@[9] == "pop"); reveal_strlit("pop"); assert("pop"@[0] != "bic"@[0]); lemma_words_differ("pop", "bic"); }
        if k == 10 { assert(ARM_MOV@[10] == "ldrb"); reveal_strlit("ldrb"); assert("ldrb"@.len() != "bic"@.len()); lemma_words_differ("ldrb", "bic"); }
        if k == 11 { assert(ARM_MOV@[11] == "strb"); reveal_strlit("strb"); assert("strb"@.len() != "bic"@.len()); lemma_words_differ("strb", "bic"); }
        if k == 12 { assert(ARM_MOV@[12] == "ldrh"); reveal_strlit("ldrh"); assert("ldrh"@.len() != "bic"@.len()); lemma_words_differ("ldrh", "bic"); }
        if k == 13 { assert(ARM_MOV@[13] == "strh"); reveal_strlit("strh"); assert("strh"@.len() != "bic"@.len()); lemma_words_differ("strh", "bic"); }
    }
    assert forall|k: int| 0 <= k < 9 implies #[trigger] ARM_ARITHMETIC@[k].spec_bytes() != "bic".spec_bytes() by {
        if k == 0 { assert(ARM_ARITHMETIC@[0] == "add"); reveal_strlit("add"); assert("add"@[0] != "bic"@[0]); lemma_words_differ("add", "bic"); }
        if k == 1 { assert(ARM_ARITHMETIC@[1] == "sub"); reveal_strlit("sub"); assert("sub"@[0] != "bic"@[0]); lemma_words_differ("sub", "bic"); }
        if k == 2 { assert(ARM_ARITHMETIC@[2] == "mul"); reveal_strlit("mul"); assert("mul"@[0] != "bic"@[0]); lemma_words_differ("mul", "bic"); }
        if k == 3 { assert(ARM_ARITHMETIC@[3] == "mla"); reveal_strlit("mla"); assert("mla"@[0] != "bic"@[0]); lemma_words_differ("mla", "bic"); }
        if k == 4 { assert(ARM_ARITHMETIC@[4] == "sdiv"); reveal_strlit("sdiv"); assert("sdiv"@.len() != "bic"@.len()); lemma_words_differ("sdiv", "bic"); }
        if k == 5 { assert(ARM_ARITHMETIC@[5] == "udiv"); reveal_strlit("udiv"); assert("udiv"@.len() != "bic"@.len()); lemma_words_differ("udiv", "bic"); }
        if k == 6 { assert(ARM_ARITHMETIC@[6] == "adc"); reveal_strlit("adc"); assert("adc"@[0] != "bic"@[0]); lemma_words_differ("adc", "bic"); }
        if k == 7 { assert(ARM_ARITHMETIC@[7] == "sbc"); reveal_strlit("sbc"); assert("sbc"@[0] != "bic"@[0]); lemma_words_differ("sbc", "bic"); }
        if k == 8 { assert(ARM_ARITHMETIC@[8] == "rsb"); reveal_strlit("rsb"); assert("rsb"@[0] != "bic"@[0]); lemma_words_differ("rsb", "bic"); }
    }
}

proof fn lemma_arm_word_lsl()
    ensures
        crate::instruction::spec_categorize_arm("lsl".spec_bytes()) == Category::Logic,
{
    reveal_strlit("lsl");
    assert(ARM_LOGIC@[4] == "lsl");
    assert forall|k: int| 0 <= k < 14 implies #[trigger] ARM_MOV@[k].spec_bytes() != "lsl".spec_bytes() by {
        if k == 0 { assert(ARM_MOV@[0] == "mov"); reveal_strlit("mov"); assert("mov"@[0] != "lsl"@[0]); lemma_words_differ("mov", "lsl"); }
        if k == 1 { assert(ARM_MOV@[1] == "movw"); reveal_strlit("movw"); assert("movw"@.len() != "lsl"@.len()); lemma_words_differ("movw", "lsl"); }
        if k == 2 { assert(ARM_MOV@[2] == "movt"); reveal_strlit("movt"); assert("movt"@.len() != "lsl"@.len()); lemma_words_differ("movt", "lsl"); }
        if k == 3 { assert(ARM_MOV@[3] == "mvn"); reveal_strlit("mvn"); assert("mvn"@[0] != "lsl"@[0]); lemma_words_differ("mvn", "lsl"); }
        if k == 4 { assert(ARM_MOV@[4] == "ldr"); reveal_strlit("ldr"); assert("ldr"@[1] != "lsl"@[1]); lemma_words_differ("ldr", "lsl"); }
        if k == 5 { assert(ARM_MOV@[5] == "str"); reveal_strlit("str"); assert("str"@[0] != "lsl"@[0]); lemma_words_differ("str", "lsl"); }
        if k == 6 { assert(ARM_MOV@[6] == "ldm"); reveal_strlit("ldm"); assert("ldm"@[1] != "lsl"@[1]); lemma_words_differ("ldm", "lsl"); }
        if k == 7 { assert(ARM_MOV@[7] == "stm"); reveal_strlit("stm"); assert("stm"@[0] != "lsl"@[0]); lemma_words_differ("stm", "lsl"); }
        if k == 8 { assert(ARM_MOV@[8] == "push"); reveal_strlit("push"); assert("push"@.len() != "lsl"@.len()); lemma_words_differ("push", "lsl"); }
        if k == 9 { assert(ARM_MOV@[9] == "pop"); reveal_strlit("pop"); assert("pop"@[0] != "lsl"@[0]); lemma_words_differ("pop", "lsl"); }
        if k == 10 { assert(ARM_MOV@[10] == "ldrb"); reveal_strlit("ldrb"); assert("ldrb"@.len() != "lsl"@.len()); lemma_words_differ("ldrb", "lsl"); }
        if k == 11 { assert(ARM_MOV@[11] == "strb"); reveal_strlit("strb"); assert("strb"@.len() != "lsl"@.len()); lemma_words_differ("strb", "lsl"); }
        if k == 12 { assert(ARM_MOV@[12] == "ldrh"); reveal_strlit("ldrh"); assert("ldrh"@.len() != "lsl"@.len()); lemma_words_differ("ldrh", "lsl"); }
        if k == 13 { assert(ARM_MOV@[13] == "strh"); reveal_strlit("strh"); assert("strh"@.len() != "lsl"@.len()); lemma_words_differ("strh", "lsl"); }
    }
    assert forall|k: int| 0 <= k < 9 implies #[trigger] ARM_ARITHMETIC@[k].spec_bytes() != "lsl".spec_bytes() by {
        if k == 0 { assert(ARM_ARITHMETIC@[0] == "add"); reveal_strlit("add"); assert("add"@[0] != "lsl"@[0]); lemma_words_differ("add", "lsl"); }
        if k == 1 { assert(ARM_ARITHMETIC@[1] == "sub"); reveal_strlit("sub"); assert("sub"@[0] != "lsl"@[0]); lemma_words_differ("sub", "lsl"); }
        if k == 2 { assert(ARM_ARITHMETIC@[2] == "mul"); reveal_strlit("mul"); assert("mul"@[0] != "lsl"@[0]); lemma_words_differ("mul", "lsl"); }
        if k == 3 { assert(ARM_ARITHMETIC@[3] == "mla"); reveal_strlit("mla"); assert("mla"@[0] != "lsl"@[0]); lemma_words_differ("mla", "lsl"); }
        if k == 4 { assert(ARM_ARITHMETIC@[4] == "sdiv"); reveal_strlit("sdiv"); assert("sdiv"@.len() != "lsl"@.len()); lemma_words_differ("sdiv", "lsl"); }
        if k == 5 { assert(ARM_ARITHMETIC@[5] == "udiv"); reveal_strlit("udiv"); assert("udiv"@.len() != "lsl"@.len()); lemma_words_differ("udiv", "lsl"); }
        if k == 6 { assert(ARM_ARITHMETIC@[6] == "adc"); reveal_strlit("adc"); assert("adc"@[0] != "lsl"@[0]); lemma_words_differ("adc", "lsl"); }
        if k == 7 { assert(ARM_ARITHMETIC@[7] == "sbc"); reveal_strlit("sbc"); assert("sbc"@[0] != "lsl"@[0]); lemma_words_differ("sbc", "lsl"); }
        if k == 8 { assert(ARM_ARITHMETIC@[8] == "rsb"); reveal_strlit("rsb"); assert("rsb"@[0] != "lsl"@[0]); lemma_words_differ("rsb", "lsl"); }
    }
}

proof fn lemma_arm_word_lsr()
    ensures
        crate::instruction::spec_categorize_arm("lsr".spec_bytes()) == Category::Logic,
{
    reveal_strlit("lsr");
    assert(ARM_LOGIC@[5] == "lsr");
    assert forall|k: int| 0 <= k < 14 implies #[trigger] ARM_MOV@[k].spec_bytes() != "lsr".spec_bytes() by {
        if k == 0 { assert(ARM_MOV@[0] == "mov"); reveal_strlit("mov"); assert("mov"@[0] != "lsr"@[0]); lemma_words_differ("mov", "lsr"); }
        if k == 1 { assert(ARM_MOV@[1] == "movw"); reveal_strlit("movw"); assert("movw"@.len() != "lsr"@.len()); lemma_words_differ("movw", "lsr"); }
        if k == 2 { assert(ARM_MOV@[2] == "movt"); reveal_strlit("movt"); assert("movt"@.len() != "lsr"@.len()); lemma_words_differ("movt", "lsr"); }
        if k == 3 { assert(ARM_MOV@[3] == "mvn"); reveal_strlit("mvn"); assert("mvn"@[0] != "lsr"@[0]); lemma_words_differ("mvn", "lsr"); }
        if k == 4 { assert(ARM_MOV@[4] == "ldr"); reveal_strlit("ldr"); assert("ldr"@[1] != "lsr"@[1]); lemma_words_differ("ldr", "lsr"); }
        if k == 5 { assert(ARM_MOV@[5] == "str"); reveal_strlit("str"); assert("str"@[0] != "lsr"@[0]); lemma_words_differ("str", "lsr"); }
        if k == 6 { assert(ARM_MOV@[6] == "ldm"); reveal_strlit("ldm"); assert("ldm"@[1] != "lsr"@[1]); lemma_words_differ("ldm", "lsr"); }
        if k == 7 { assert(ARM_MOV@[7] == "stm"); reveal_strlit("stm"); assert("stm"@[0] != "lsr"@[0]); lemma_words_differ("stm", "lsr"); }
        if k == 8 { assert(ARM_MOV@[8] == "push"); reveal_strlit("push"); assert("push"@.len() != "lsr"@.len()); lemma_words_differ("push", "lsr"); }
        if k == 9 { assert(ARM_MOV@[9] == "pop"); reveal_strlit("pop"); assert("pop"@[0] != "lsr"@[0]); lemma_words_differ("pop", "lsr"); }
        if k == 10 { assert(ARM_MOV@[10] == "ldrb"); reveal_strlit("ldrb"); assert("ldrb"@.len() != "lsr"@.len()); lemma_words_differ("ldrb", "lsr"); }
        if k == 11 { assert(ARM_MOV@[11] == "strb"); reveal_strlit("strb"); assert("strb"@.len() != "lsr"@.len()); lemma_words_differ("strb", "lsr"); }
        if k == 12 { assert(ARM_MOV@[12] == "ldrh"); reveal_strlit("ldrh"); assert("ldrh"@.len() != "lsr"@.len()); lemma_words_differ("ldrh", "lsr"); }
        if k == 13 { assert(ARM_MOV@[13] == "strh"); reveal_strlit("strh"); assert("strh"@.len() != "lsr"@.len()); lemma_words_differ("strh", "lsr"); }
    }
    assert forall|k: int| 0 <= k < 9 implies #[trigger] ARM_ARITHMETIC@[k].spec_bytes() != "lsr".spec_bytes() by {
        if k == 0 { assert(ARM_ARITHMETIC@[0] == "add"); reveal_strlit("add"); assert("add"@[0] != "lsr"@[0]); lemma_words_differ("add", "lsr"); }
        if k == 1 { assert(ARM_ARITHMETIC@[1] == "sub"); reveal_strlit("sub"); assert("sub"@[0] != "lsr"@[0]); lemma_words_differ("sub", "lsr"); }
        if k == 2 { assert(ARM_ARITHMETIC@[2] == "mul"); reveal_strlit("mul"); assert("mul"@[0] != "lsr"@[0]); lemma_words_differ("mul", "lsr"); }
        if k == 3 { assert(ARM_ARITHMETIC@[3] == "mla"); reveal_strlit("mla"); assert("mla"@[0] != "lsr"@[0]); lemma_words_differ("mla", "lsr"); }
        if k == 4 { assert(ARM_ARITHMETIC@[4] == "sdiv"); reveal_strlit("sdiv"); assert("sdiv"@.len() != "lsr"@.len()); lemma_words_differ("sdiv", "lsr"); }
        if k == 5 { assert(ARM_ARITHMETIC@[5] == "udiv"); reveal_strlit("udiv"); assert("udiv"@.len() != "lsr"@.len()); lemma_words_differ("udiv", "lsr"); }
        if k == 6 { assert(ARM_ARITHMETIC@[6] == "adc"); reveal_strlit("adc"); assert("adc"@[0] != "lsr"@[0]); lemma_words_differ("adc", "lsr"); }
        if k == 7 { assert(ARM_ARITHMETIC@[7] == "sbc"); reveal_strlit("sbc"); assert("sbc"@[0] != "lsr"@[0]); lemma_words_differ("sbc", "lsr"); }
        if k == 8 { assert(ARM_ARITHMETIC@[8] == "rsb"); reveal_strlit("rsb"); assert("rsb"@[0] != "lsr"@[0]); lemma_words_differ("rsb", "lsr"); }
    }
}

proof fn lemma_arm_word_asr()
    ensures
        crate::instruction::spec_categorize_arm("asr".spec_bytes()) == Category::Logic,
{
    reveal_strlit("asr");
    assert(ARM_LOGIC@[6] == "asr");
    assert forall|k: int| 0 <= k < 14 implies #[trigger] ARM_MOV@[k].spec_bytes() != "asr".spec_bytes() by {
        if k == 0 { assert(ARM_MOV@[0] == "mov"); reveal_strlit("mov"); assert("mov"@[0] != "asr"@[0]); lemma_words_differ("mov", "asr"); }
        if k == 1 { assert(ARM_MOV@[1] == "movw"); reveal_strlit("movw"); assert("movw"@.len() != "asr"@.len()); lemma_words_differ("movw", "asr"); }
        if k == 2 { assert(ARM_MOV@[2] == "movt"); reveal_strlit("movt"); assert("movt"@.len() != "asr"@.len()); lemma_words_differ("movt", "asr"); }
        if k == 3 { assert(ARM_MOV@[3] == "mvn"); reveal_strlit("mvn"); assert("mvn"@[0] != "asr"@[0]); lemma_words_differ("mvn", "asr"); }
        if k == 4 { assert(ARM_MOV@[4] == "ldr"); reveal_strlit("ldr"); assert("ldr"@[0] != "asr"@[0]); lemma_words_differ("ldr", "asr"); }
        if k == 5 { assert(ARM_MOV@[5] == "str"); reveal_strlit("str"); assert("str"@[0] != "asr"@[0]); lemma_words_differ("str", "asr"); }
        if k == 6 { assert(ARM_MOV@[6] == "ldm"); reveal_strlit("ldm"); assert("ldm"@[0] != "asr"@[0]); lemma_words_differ("ldm", "asr"); }
        if k == 7 { assert(ARM_MOV@[7] == "stm"); reveal_strlit("stm"); assert("stm"@[0] != "asr"@[0]); lemma_words_differ("stm", "asr"); }
        if k == 8 { assert(ARM_MOV@[8] == "push"); reveal_strlit("push"); assert("push"@.len() != "asr"@.len()); lemma_words_differ("push", "asr"); }
        if k == 9 { assert(ARM_MOV@[9] == "pop"); reveal_strlit("pop"); assert("pop"@[0] != "asr"@[0]); lemma_words_differ("pop", "asr"); }
        if k == 10 { assert(ARM_MOV@[10] == "ldrb"); reveal_strlit("ldrb"); assert("ldrb"@.len() != "asr"@.len()); lemma_words_differ("ldrb", "asr"); }
        if k == 11 { assert(ARM_MOV@[11] == "strb"); reveal_strlit("strb"); assert("strb"@.len() != "asr"@.len()); lemma_words_differ("strb", "asr"); }
        if k == 12 { assert(ARM_MOV@[12] == "ldrh"); reveal_strlit("ldrh"); assert("ldrh"@.len() != "asr"@.len()); lemma_words_differ("ldrh", "asr"); }
        if k == 13 { assert(ARM_MOV@[13] == "strh"); reveal_strlit("strh"); assert("strh"@.len() != "asr"@.len()); lemma_words_differ("strh", "asr"); }
    }
    assert forall|k: int| 0 <= k < 9 implies #[trigger] ARM_ARITHMETIC@[k].spec_bytes() != "asr".spec_bytes() by {
        if k == 0 { assert(ARM_ARITHMETIC@[0] == "add"); reveal_strlit("add"); assert("add"@[1] != "asr"@[1]); lemma_words_differ("add", "asr"); }
        if k == 1 { assert(ARM_ARITHMETIC@[1] == "sub"); reveal_strlit("sub"); assert("sub"@[0] != "asr"@[0]); lemma_words_differ("sub", "asr"); }
        if k == 2 { assert(ARM_ARITHMETIC@[2] == "mul"); reveal_strlit("mul"); assert("mul"@[0] != "asr"@[0]); lemma_words_differ("mul", "asr"); }
        if k == 3 { assert(ARM_ARITHMETIC@[3] == "mla"); reveal_strlit("mla"); assert("mla"@[0] != "asr"@[0]); lemma_words_differ("mla", "asr"); }
        if k == 4 { assert(ARM_ARITHMETIC@[4] == "sdiv"); reveal_strlit("sdiv"); assert("sdiv"@.len() != "asr"@.len()); lemma_words_differ("sdiv", "asr"); }
        if k == 5 { assert(ARM_ARITHMETIC@[5] == "udiv"); reveal_strlit("udiv"); assert("udiv"@.len() != "asr"@.len()); lemma_words_differ("udiv", "asr"); }
        if k == 6 { assert(ARM_ARITHMETIC@[6] == "adc"); reveal_strlit("adc"); assert("adc"@[1] != "asr"@[1]); lemma_words_differ("adc", "asr"); }
        if k == 7 { assert(ARM_ARITHMETIC@[7] == "sbc"); reveal_strlit("sbc"); assert("sbc"@[0] != "asr"@[0]); lemma_words_differ("sbc", "asr"); }
        if k == 8 { assert(ARM_ARITHMETIC@[8] == "rsb"); reveal_strlit("rsb"); assert("rsb"@[0] != "asr"@[0]); lemma_words_differ("rsb", "asr"); }
    }
}

proof fn lemma_arm_word_ror()
    ensures
        crate::instruction::spec_categorize_arm("ror".spec_bytes()) == Category::Logic,
{
    reveal_strlit("ror");
    assert(ARM_LOGIC@[7] == "ror");
    assert forall|k: int| 0 <= k < 14 implies #[trigger] ARM_MOV@[k].spec_bytes() != "ror".spec_bytes() by {
        if k == 0 { assert(ARM_MOV@[0] == "mov"); reveal_strlit("mov"); assert("mov"@[0] != "ror"@[0]); lemma_words_differ("mov", "ror"); }
        if k == 1 { assert(ARM_MOV@[1] == "movw"); reveal_strlit("movw"); assert("movw"@.len() != "ror"@.len()); lemma_words_differ("movw", "ror"); }
        if k == 2 { assert(ARM_MOV@[2] == "movt"); reveal_strlit("movt"); assert("movt"@.len() != "ror"@.len()); lemma_words_differ("movt", "ror"); }
        if k == 3 { assert(ARM_MOV@[3] == "mvn"); reveal_strlit("mvn"); assert("mvn"@[0] != "ror"@[0]); lemma_words_differ("mvn", "ror"); }
        if k == 4 { assert(ARM_MOV@[4] == "ldr"); reveal_strlit("ldr"); assert("ldr"@[0] != "ror"@[0]); lemma_words_differ("ldr", "ror"); }
        if k == 5 { assert(ARM_MOV@[5] == "str"); reveal_strlit("str"); assert("str"@[0] != "ror"@[0]); lemma_words_differ("str", "ror"); }
        if k == 6 { assert(ARM_MOV@[6] == "ldm"); reveal_strlit("ldm"); assert("ldm"@[0] != "ror"@[0]); lemma_words_differ("ldm", "ror"); }
        if k == 7 { assert(ARM_MOV@[7] == "stm"); reveal_strlit("stm"); assert("stm"@[0] != "ror"@[0]); lemma_words_differ("stm", "ror"); }
        if k == 8 { assert(ARM_MOV@[8] == "push"); reveal_strlit("push"); assert("push"@.len() != "ror"@.len()); lemma_words_differ("push", "ror"); }
        if k == 9 { assert(ARM_MOV@[9] == "pop"); reveal_strlit("pop"); assert("pop"@[0] != "ror"@[0]); lemma_words_differ("pop", "ror"); }
        if k == 10 { assert(ARM_MOV@[10] == "ldrb"); reveal_strlit("ldrb"); assert("ldrb"@.len() != "ror"@.len()); lemma_words_differ("ldrb", "ror"); }
        if k == 11 { assert(ARM_MOV@[11] == "strb"); reveal_strlit("strb"); assert("strb"@.len() != "ror"@.len()); lemma_words_differ("strb", "ror"); }
        if k == 12 { assert(ARM_MOV@[12] == "ldrh"); reveal_strlit("ldrh"); assert("ldrh"@.len() != "ror"@.len()); lemma_words_differ("ldrh", "ror"); }
        if k == 13 { assert(ARM_MOV@[13] == "strh"); reveal_strlit("strh"); assert("strh"@.len() != "ror"@.len()); lemma_words_differ("strh", "ror"); }
    }
    assert forall|k: int| 0 <= k < 9 implies #[trigger] ARM_ARITHMETIC@[k].spec_bytes() != "ror".spec_bytes() by {
        if k == 0 { assert(ARM_ARITHMETIC@[0] == "add"); reveal_strlit("add"); assert("add"@[0] != "ror"@[0]); lemma_words_differ("add", "ror"); }
        if k == 1 { assert(ARM_ARITHMETIC@[1] == "sub"); reveal_strlit("sub"); assert("sub"@[0] != "ror"@[0]); lemma_words_differ("sub", "ror"); }
        if k == 2 { assert(ARM_ARITHMETIC@[2] == "mul"); reveal_strlit("mul"); assert("mul"@[0] != "ror"@[0]); lemma_words_differ("mul", "ror"); }
        if k == 3 { assert(ARM_ARITHMETIC@[3] == "mla"); reveal_strlit("mla"); assert("mla"@[0] != "ror"@[0]); lemma_words_differ("mla", "ror"); }
        if k == 4 { assert(ARM_ARITHMETIC@[4] == "sdiv"); reveal_strlit("sdiv"); assert("sdiv"@.len() != "ror"@.len()); lemma_words_differ("sdiv", "ror"); }
        if k == 5 { assert(ARM_ARITHMETIC@[5] == "udiv"); reveal_strlit("udiv"); assert("udiv"@.len() != "ror"@.len()); lemma_words_differ("udiv", "ror"); }
        if k == 6 { assert(ARM_ARITHMETIC@[6] == "adc"); reveal_strlit("adc"); assert("adc"@[0] != "ror"@[0]); lemma_words_differ("adc", "ror"); }
        if k == 7 { assert(ARM_ARITHMETIC@[7] == "sbc"); reveal_strlit("sbc"); assert("sbc"@[0] != "ror"@[0]); lemma_words_differ("sbc", "ror"); }
        if k == 8 { assert(ARM_ARITHMETIC@[8] == "rsb"); reveal_strlit("rsb"); assert("rsb"@[1] != "ror"@[1]); lemma_words_differ("rsb", "ror"); }
    }
}

proof fn lemma_arm_logic_words(m: Seq<u8>)
    requires
        m == "and".spec_bytes() || m == "orr".spec_bytes() || m == "eor".spec_bytes() || m == "bic".spec_bytes() || m == "lsl".spec_bytes() || m == "lsr".spec_bytes() || m == "asr".spec_bytes() || m == "ror".spec_bytes(),
    ensures
        crate::instruction::spec_categorize_arm(m) == Category::Logic,
        crate::instruction::spec_categorize(m, ArchKind::Arm) == Category::Logic,
        crate::instruction::listing_counts(seq![Some(m)], ArchKind::Arm) == (1int, 0int, 0int, 1int, 0int, 0int),
{
    if m == "and".spec_bytes() {
        lemma_arm_word_and();
        reveal_strlit("and");
        lemma_lower_fixed("and");
    }
    if m == "orr".spec_bytes() {
        lemma_arm_word_orr();
        reveal_strlit("orr");
        lemma_lower_fixed("orr");
    }
    if m == "eor".spec_bytes() {
        lemma_arm_word_eor();
        reveal_strlit("eor");
        lemma_lower_fixed("eor");
    }
    if m == "bic".spec_bytes() {
        lemma_arm_word_bic();
        reveal_strlit("bic");
        lemma_lower_fixed("bic");
    }
    if m == "lsl".spec_bytes() {
        lemma_arm_word_lsl();
        reveal_strlit("lsl");
        lemma_lower_fixed("lsl");
    }
    if m == "lsr".spec_bytes() {
        lemma_arm_word_lsr();
        reveal_strlit("lsr");
        lemma_lower_fixed("lsr");
    }
    if m == "asr".spec_bytes() {
        lemma_arm_word_asr();
        reveal_strlit("asr");
        lemma_lower_fixed("asr");
    }
    if m == "ror".spec_bytes() {
        lemma_arm_word_ror();
        reveal_strlit("ror");
        lemma_lower_fixed("ror");
    }
    assert(seq![Some(m)].drop_last() =~= Seq::<Option<Seq<u8>>>::empty());
    assert(seq![Some(m)].last() == Some(m));
    assert(crate::instruction::listing_counts(Seq::<Option<Seq<u8>>>::empty(), ArchKind::Arm) == (0int, 0int, 0int, 0int, 0int, 0int));
}

proof fn lemma_arm_word_b()
    ensures
        crate::instruction::spec_categorize_arm("b".spec_bytes()) == Category::ControlFlow,
{
    reveal_strlit("b");
    assert(ARM_CONTROL@[0] == "b");
    assert forall|k: int| 0 <= k < 14 implies #[trigger] ARM_MOV@[k].spec_bytes() != "b".spec_bytes() by {
        if k == 0 { assert(ARM_MOV@[0] == "mov"); reveal_strlit("mov"); assert("mov"@.len() != "b"@.len()); lemma_words_differ("mov", "b"); }
        if k == 1 { assert(ARM_MOV@[1] == "movw"); reveal_strlit("movw"); assert("movw"@.len() != "b"@.len()); lemma_words_differ("movw", "b"); }
        if k == 2 { assert(ARM_MOV@[2] == "movt"); reveal_strlit("movt"); assert("movt"@.len() != "b"@.len()); lemma_words_differ("movt", "b"); }
        if k == 3 { assert(ARM_MOV@[3] == "mvn"); reveal_strlit("mvn"); assert("mvn"@.len() != "b"@.len()); lemma_words_differ("mvn", "b"); }
        if k == 4 { assert(ARM_MOV@[4] == "ldr"); reveal_strlit("ldr"); assert("ldr"@.len() != "b"@.len()); lemma_words_differ("ldr", "b"); }
        if k == 5 { assert(ARM_MOV@[5] == "str"); reveal_strlit("str"); assert("str"@.len() != "b"@.len()); lemma_words_differ("str", "b"); }
        if k == 6 { assert(ARM_MOV@[6] == "ldm"); reveal_strlit("ldm"); assert("ldm"@.len() != "b"@.len()); lemma_words_differ("ldm", "b"); }
        if k == 7 { assert(ARM_MOV@[7] == "stm"); reveal_strlit("stm"); assert("stm"@.len() != "b"@.len()); lemma_words_differ("stm", "b"); }
        if k == 8 { assert(ARM_MOV@[8] == "push"); reveal_strlit("push"); assert("push"@.len() != "b"@.len()); lemma_words_differ("push", "b"); }
        if k == 9 { assert(ARM_MOV@[9] == "pop"); reveal_strlit("pop"); assert("pop"@.len() != "b"@.len()); lemma_words_differ("pop", "b"); }
        if k == 10 { assert(ARM_MOV@[10] == "ldrb"); reveal_strlit("ldrb"); assert("ldrb"@.len() != "b"@.len()); lemma_words_differ("ldrb", "b"); }
        if k == 11 { assert(ARM_MOV@[11] == "strb"); reveal_strlit("strb"); assert("strb"@.len() != "b"@.len()); lemma_words_differ("strb", "b"); }
        if k == 12 { assert(ARM_MOV@[12] == "ldrh"); reveal_strlit("ldrh"); assert("ldrh"@.len() != "b"@.len()); lemma_words_differ("ldrh", "b"); }
        if k == 13 { assert(ARM_MOV@[13] == "strh"); reveal_strlit("strh"); assert("strh"@.len() != "b"@.len()); lemma_words_differ("strh", "b"); }
    }
    assert forall|k: int| 0 <= k < 9 implies #[trigger] ARM_ARITHMETIC@[k].spec_bytes() != "b".spec_bytes() by {
        if k == 0 { assert(ARM_ARITHMETIC@[0] == "add"); reveal_strlit("add"); assert("add"@.len() != "b"@.len()); lemma_words_differ("add", "b"); }
        if k == 1 { assert(ARM_ARITHMETIC@[1] == "sub"); reveal_strlit("sub"); assert("sub"@.len() != "b"@.len()); lemma_words_differ("sub", "b"); }
        if k == 2 { assert(ARM_ARITHMETIC@[2] == "mul"); reveal_strlit("mul"); assert("mul"@.len() != "b"@.len()); lemma_words_differ("mul", "b"); }
        if k == 3 { assert(ARM_ARITHMETIC@[3] == "mla"); reveal_strlit("mla"); assert("mla"@.len() != "b"@.len()); lemma_words_differ("mla", "b"); }
        if k == 4 { assert(ARM_ARITHMETIC@[4] == "sdiv"); reveal_strlit("sdiv"); assert("sdiv"@.len() != "b"@.len()); lemma_words_differ("sdiv", "b"); }
        if k == 5 { assert(ARM_ARITHMETIC@[5] == "udiv"); reveal_strlit("udiv"); assert("udiv"@.len() != "b"@.len()); lemma_words_differ("udiv", "b"); }
        if k == 6 { assert(ARM_ARITHMETIC@[6] == "adc"); reveal_strlit("adc"); assert("adc"@.len() != "b"@.len()); lemma_words_differ("adc", "b"); }
        if k == 7 { assert(ARM_ARITHMETIC@[7] == "sbc"); reveal_strlit("sbc"); assert("sbc"@.len() != "b"@.len()); lemma_words_differ("sbc", "b"); }
        if k == 8 { assert(ARM_ARITHMETIC@[8] == "rsb"); reveal_strlit("rsb"); assert("rsb"@.len() != "b"@.len()); lemma_words_differ("rsb", "b"); }
    }
    assert forall|k: int| 0 <= k < 8 implies #[trigger] ARM_LOGIC@[k].spec_bytes() != "b".spec_bytes() by {
        if k == 0 { assert(ARM_LOGIC@[0] == "and"); reveal_strlit("and"); assert("and"@.len() != "b"@.len()); lemma_words_differ("and", "b"); }
        if k == 1 { assert(ARM_LOGIC@[1] == "orr"); reveal_strlit("orr"); assert("orr"@.len() != "b"@.len()); lemma_words_differ("orr", "b"); }
        if k == 2 { assert(ARM_LOGIC@[2] == "eor"); reveal_strlit("eor"); assert("eor"@.len() != "b"@.len()); lemma_words_differ("eor", "b"); }
        if k == 3 { assert(ARM_LOGIC@[3] == "bic"); reveal_strlit("bic"); assert("bic"@.len() != "b"@.len()); lemma_words_differ("bic", "b"); }
        if k == 4 { assert(ARM_LOGIC@[4] == "lsl"); reveal_strlit("lsl"); assert("lsl"@.len() != "b"@.len()); lemma_words_differ("lsl", "b"); }
        if k == 5 { assert(ARM_LOGIC@[5] == "lsr"); reveal_strlit("lsr"); assert("lsr"@.len() != "b"@.len()); lemma_words_differ("lsr", "b"); }
        if k == 6 { assert(ARM_LOGIC@[6] == "asr"); reveal_strlit("asr"); assert("asr"@.len() != "b"@.len()); lemma_words_differ("asr", "b"); }
        if k == 7 { assert(ARM_LOGIC@[7] == "ror"); reveal_strlit("ror"); assert("ror"@.len() != "b"@.len()); lemma_words_differ("ror", "b"); }
    }
}

proof fn lemma_arm_word_bl()
    ensures
        crate::instruction::spec_categorize_arm("bl".spec_bytes()) == Category::ControlFlow,
{
    reveal_strlit("bl");
    assert(ARM_CONTROL@[1] == "bl");
    assert forall|k: int| 0 <= k < 14 implies #[trigger] ARM_MOV@[k].spec_bytes() != "bl".spec_bytes() by {
        if k == 0 { assert(ARM_MOV@[0] == "mov"); reveal_strlit("mov"); assert("mov"@.len() != "bl"@.len()); lemma_words_differ("mov", "bl"); }
        if k == 1 { assert(ARM_MOV@[1] == "movw"); reveal_strlit("movw"); assert("movw"@.len() != "bl"@.len()); lemma_words_differ("movw", "bl"); }
        if k == 2 { assert(ARM_MOV@[2] == "movt"); reveal_strlit("movt"); assert("movt"@.len() != "bl"@.len()); lemma_words_differ("movt", "bl"); }
        if k == 3 { assert(ARM_MOV@[3] == "mvn"); reveal_strlit("mvn"); assert("mvn"@.len() != "bl"@.len()); lemma_words_differ("mvn", "bl"); }
        if k == 4 { assert(ARM_MOV@[4] == "ldr"); reveal_strlit("ldr"); assert("ldr"@.len() != "bl"@.len()); lemma_words_differ("ldr", "bl"); }
        if k == 5 { assert(ARM_MOV@[5] == "str"); reveal_strlit("str"); assert("str"@.len() != "bl"@.len()); lemma_words_differ("str", "bl"); }
        if k == 6 { assert(ARM_MOV@[6] == "ldm"); reveal_strlit("ldm"); assert("ldm"@.len() != "bl"@.len()); lemma_words_differ("ldm", "bl"); }
        if k == 7 { assert(ARM_MOV@[7] == "stm"); reveal_strlit("stm"); assert("stm"@.len() != "bl"@.len()); lemma_words_differ("stm", "bl"); }
        if k == 8 { assert(ARM_MOV@[8] == "push"); reveal_strlit("push"); assert("push"@.len() != "bl"@.len()); lemma_words_differ("push", "bl"); }
        if k == 9 { assert(ARM_MOV@[9] == "pop"); reveal_strlit("pop"); assert("pop"@.len() != "bl"@.len()); lemma_words_differ("pop", "bl"); }
        if k == 10 { assert(ARM_MOV@[10] == "ldrb"); reveal_strlit("ldrb"); assert("ldrb"@.len() != "bl"@.len()); lemma_words_differ("ldrb", "bl"); }
        if k == 11 { assert(ARM_MOV@[11] == "strb"); reveal_strlit("strb"); assert("strb"@.len() != "bl"@.len()); lemma_words_differ("strb", "bl"); }
        if k == 12 { assert(ARM_MOV@[12] == "ldrh"); reveal_strlit("ldrh"); assert("ldrh"@.len() != "bl"@.len()); lemma_words_differ("ldrh", "bl"); }
        if k == 13 { assert(ARM_MOV@[13] == "strh"); reveal_strlit("strh"); assert("strh"@.len() != "bl"@.len()); lemma_words_differ("strh", "bl"); }
    }
    assert forall|k: int| 0 <= k < 9 implies #[trigger] ARM_ARITHMETIC@[k].spec_bytes() != "bl".spec_bytes() by {
        if k == 0 { assert(ARM_ARITHMETIC@[0] == "add"); reveal_strlit("add"); assert("add"@.len() != "bl"@.len()); lemma_words_differ("add", "bl"); }
        if k == 1 { assert(ARM_ARITHMETIC@[1] == "sub"); reveal_strlit("sub"); assert("sub"@.len() != "bl"@.len()); lemma_words_differ("sub", "bl"); }
        if k == 2 { assert(ARM_ARITHMETIC@[2] == "mul"); reveal_strlit("mul"); assert("mul"@.len() != "bl"@.len()); lemma_words_differ("mul", "bl"); }
        if k == 3 { assert(ARM_ARITHMETIC@[3] == "mla"); reveal_strlit("mla"); assert("mla"@.len() != "bl"@.len()); lemma_words_differ("mla", "bl"); }
        if k == 4 { assert(ARM_ARITHMETIC@[4] == "sdiv"); reveal_strlit("sdiv"); assert("sdiv"@.len() != "bl"@.len()); lemma_words_differ("sdiv", "bl"); }
        if k == 5 { assert(ARM_ARITHMETIC@[5] == "udiv"); reveal_strlit("udiv"); assert("udiv"@.len() != "bl"@.len()); lemma_words_differ("udiv", "bl"); }
        if k == 6 { assert(ARM_ARITHMETIC@[6] == "adc"); reveal_strlit("adc"); assert("adc"@.len() != "bl"@.len()); lemma_words_differ("adc", "bl"); }
        if k == 7 { assert(ARM_ARITHMETIC@[7] == "sbc"); reveal_strlit("sbc"); assert("sbc"@.len() != "bl"@.len()); lemma_words_differ("sbc", "bl"); }
        if k == 8 { assert(ARM_ARITHMETIC@[8] == "rsb"); reveal_strlit("rsb"); assert("rsb"@.len() != "bl"@.len()); lemma_words_differ("rsb", "bl"); }
    }
    assert forall|k: int| 0 <= k < 8 implies #[trigger] ARM_LOGIC@[k].spec_bytes() != "bl".spec_bytes() by {
        if k == 0 { assert(ARM_LOGIC@[0] == "and"); reveal_strlit("and"); assert("and"@.len() != "bl"@.len()); lemma_words_differ("and", "bl"); }
        if k == 1 { assert(ARM_LOGIC@[1] == "orr"); reveal_strlit("orr"); assert("orr"@.len() != "bl"@.len()); lemma_words_differ("orr", "bl"); }
        if k == 2 { assert(ARM_LOGIC@[2] == "eor"); reveal_strlit("eor"); assert("eor"@.len() != "bl"@.len()); lemma_words_differ("eor", "bl"); }
        if k == 3 { assert(ARM_LOGIC@[3] == "bic"); reveal_strlit("bic"); assert("bic"@.len() != "bl"@.len()); lemma_words_differ("bic", "bl"); }
        if k == 4 { assert(ARM_LOGIC@[4] == "lsl"); reveal_strlit("lsl"); assert("lsl"@.len() != "bl"@.len()); lemma_words_differ("lsl", "bl"); }
        if k == 5 { assert(ARM_LOGIC@[5] == "lsr"); reveal_strlit("lsr"); assert("lsr"@.len() != "bl"@.len()); lemma_words_differ("lsr", "bl"); }
        if k == 6 { assert(ARM_LOGIC@[6] == "asr"); reveal_strlit("asr"); assert("asr"@.len() != "bl"@.len()); lemma_words_differ("asr", "bl"); }
        if k == 7 { assert(ARM_LOGIC@[7] == "ror"); reveal_strlit("ror"); assert("ror"@.len() != "bl"@.len()); lemma_words_differ("ror", "bl"); }
    }
}

proof fn lemma_arm_word_bx()
    ensures
        crate::instruction::spec_categorize_arm("bx".spec_bytes()) == Category::ControlFlow,
{
    reveal_strlit("bx");
    assert(ARM_CONTROL@[2] == "bx");
    assert forall|k: int| 0 <= k < 14 implies #[trigger] ARM_MOV@[k].spec_bytes() != "bx".spec_bytes() by {
        if k == 0 { assert(ARM_MOV@[0] == "mov"); reveal_strlit("mov"); assert("mov"@.len() != "bx"@.len()); lemma_words_differ("mov", "bx"); }
        if k == 1 { assert(ARM_MOV@[1] == "movw"); reveal_strlit("movw"); assert("movw"@.len() != "bx"@.len()); lemma_words_differ("movw", "bx"); }
        if k == 2 { assert(ARM_MOV@[2] == "movt"); reveal_strlit("movt"); assert("movt"@.len() != "bx"@.len()); lemma_words_differ("movt", "bx"); }
        if k == 3 { assert(ARM_MOV@[3] == "mvn"); reveal_strlit("mvn"); assert("mvn"@.len() != "bx"@.len()); lemma_words_differ("mvn", "bx"); }
        if k == 4 { assert(ARM_MOV@[4] == "ldr"); reveal_strlit("ldr"); assert("ldr"@.len() != "bx"@.len()); lemma_words_differ("ldr", "bx"); }
        if k == 5 { assert(ARM_MOV@[5] == "str"); reveal_strlit("str"); assert("str"@.len() != "bx"@.len()); lemma_words_differ("str", "bx"); }
        if k == 6 { assert(ARM_MOV@[6] == "ldm"); reveal_strlit("ldm"); assert("ldm"@.len() != "bx"@.len()); lemma_words_differ("ldm", "bx"); }
        if k == 7 { assert(ARM_MOV@[7] == "stm"); reveal_strlit("stm"); assert("stm"@.len() != "bx"@.len()); lemma_words_differ("stm", "bx"); }
        if k == 8 { assert(ARM_MOV@[8] == "push"); reveal_strlit("push"); assert("push"@.len() != "bx"@.len()); lemma_words_differ("push", "bx"); }
        if k == 9 { assert(ARM_MOV@[9] == "pop"); reveal_strlit("pop"); assert("pop"@.len() != "bx"@.len()); lemma_words_differ("pop", "bx"); }
        if k == 10 { assert(ARM_MOV@[10] == "ldrb"); reveal_strlit("ldrb"); assert("ldrb"@.len() != "bx"@.len()); lemma_words_differ("ldrb", "bx"); }
        if k == 11 { assert(ARM_MOV@[11] == "strb"); reveal_strlit("strb"); assert("strb"@.len() != "bx"@.len()); lemma_words_differ("strb", "bx"); }
        if k == 12 { assert(ARM_MOV@[12] == "ldrh"); reveal_strlit("ldrh"); assert("ldrh"@.len() != "bx"@.len()); lemma_words_differ("ldrh", "bx"); }
        if k == 13 { assert(ARM_MOV@[13] == "strh"); reveal_strlit("strh"); assert("strh"@.len() != "bx"@.len()); lemma_words_differ("strh", "bx"); }
    }
    assert forall|k: int| 0 <= k < 9 implies #[trigger] ARM_ARITHMETIC@[k].spec_bytes() != "bx".spec_bytes() by {
        if k == 0 { assert(ARM_ARITHMETIC@[0] == "add"); reveal_strlit("add"); assert("add"@.len() != "bx"@.len()); lemma_words_differ("add", "bx"); }
        if k == 1 { assert(ARM_ARITHMETIC@[1] == "sub"); reveal_strlit("sub"); assert("sub"@.len() != "bx"@.len()); lemma_words_differ("sub", "bx"); }
        if k == 2 { assert(ARM_ARITHMETIC@[2] == "mul"); reveal_strlit("mul"); assert("mul"@.len() != "bx"@.len()); lemma_words_differ("mul", "bx"); }
        if k == 3 { assert(ARM_ARITHMETIC@[3] == "mla"); reveal_strlit("mla"); assert("mla"@.len() != "bx"@.len()); lemma_words_differ("mla", "bx"); }
        if k == 4 { assert(ARM_ARITHMETIC@[4] == "sdiv"); reveal_strlit("sdiv"); assert("sdiv"@.len() != "bx"@.len()); lemma_words_differ("sdiv", "bx"); }
        if k == 5 { assert(ARM_ARITHMETIC@[5] == "udiv"); reveal_strlit("udiv"); assert("udiv"@.len() != "bx"@.len()); lemma_words_differ("udiv", "bx"); }
        if k == 6 { assert(ARM_ARITHMETIC@[6] == "adc"); reveal_strlit("adc"); assert("adc"@.len() != "bx"@.len()); lemma_words_differ("adc", "bx"); }
        if k == 7 { assert(ARM_ARITHMETIC@[7] == "sbc"); reveal_strlit("sbc"); assert("sbc"@.len() != "bx"@.len()); lemma_words_differ("sbc", "bx"); }
        if k == 8 { assert(ARM_ARITHMETIC@[8] == "rsb"); reveal_strlit("rsb"); assert("rsb"@.len() != "bx"@.len()); lemma_words_differ("rsb", "bx"); }
    }
    assert forall|k: int| 0 <= k < 8 implies #[trigger] ARM_LOGIC@[k].spec_bytes() != "bx".spec_bytes() by {
        if k == 0 { assert(ARM_LOGIC@[0] == "and"); reveal_strlit("and"); assert("and"@.len() != "bx"@.len()); lemma_words_differ("and", "bx"); }
        if k == 1 { assert(ARM_LOGIC@[1] == "orr"); reveal_strlit("orr"); assert("orr"@.len() != "bx"@.len()); lemma_words_differ("orr", "bx"); }
        if k == 2 { assert(ARM_LOGIC@[2] == "eor"); reveal_strlit("eor"); assert("eor"@.len() != "bx"@.len()); lemma_words_differ("eor", "bx"); }
        if k == 3 { assert(ARM_LOGIC@[3] == "bic"); reveal_strlit("bic"); assert("bic"@.len() != "bx"@.len()); lemma_words_differ("bic", "bx"); }
        if k == 4 { assert(ARM_LOGIC@[4] == "lsl"); reveal_strlit("lsl"); assert("lsl"@.len() != "bx"@.len()); lemma_words_differ("lsl", "bx"); }
        if k == 5 { assert(ARM_LOGIC@[5] == "lsr"); reveal_strlit("lsr"); assert("lsr"@.len() != "bx"@.len()); lemma_words_differ("lsr", "bx"); }
        if k == 6 { assert(ARM_LOGIC@[6] == "asr"); reveal_strlit("asr"); assert("asr"@.len() != "bx"@.len()); lemma_words_differ("asr", "bx"); }
        if k == 7 { assert(ARM_LOGIC@[7] == "ror"); reveal_strlit("ror"); assert("ror"@.len() != "bx"@.len()); lemma_words_differ("ror", "bx"); }
    }
}

proof fn lemma_arm_word_blx()
    ensures
        crate::instruction::spec_categorize_arm("blx".spec_bytes()) == Category::ControlFlow,
{
    reveal_strlit("blx");
    assert(ARM_CONTROL@[3] == "blx");
    assert forall|k: int| 0 <= k < 14 implies #[trigger] ARM_MOV@[k].spec_bytes() != "blx".spec_bytes() by {
        if k == 0 { assert(ARM_MOV@[0] == "mov"); reveal_strlit("mov"); assert("mov"@[0] != "blx"@[0]); lemma_words_differ("mov", "blx"); }
        if k == 1 { assert(ARM_MOV@[1] == "movw"); reveal_strlit("movw"); assert("movw"@.len() != "blx"@.len()); lemma_words_differ("movw", "blx"); }
        if k == 2 { assert(ARM_MOV@[2] == "movt"); reveal_strlit("movt"); assert("movt"@.len() != "blx"@.len()); lemma_words_differ("movt", "blx"); }
        if k == 3 { assert(ARM_MOV@[3] == "mvn"); reveal_strlit("mvn"); assert("mvn"@[0] != "blx"@[0]); lemma_words_differ("mvn", "blx"); }
        if k == 4 { assert(ARM_MOV@[4] == "ldr"); reveal_strlit("ldr"); assert("ldr"@[0] != "blx"@[0]); lemma_words_differ("ldr", "blx"); }
        if k == 5 { assert(ARM_MOV@[5] == "str"); reveal_strlit("str"); assert("str"@[0] != "blx"@[0]); lemma_words_differ("str", "blx"); }
        if k == 6 { assert(ARM_MOV@[6] == "ldm"); reveal_strlit("ldm"); assert("ldm"@[0] != "blx"@[0]); lemma_words_differ("ldm", "blx"); }
        if k == 7 { assert(ARM_MOV@[7] == "stm"); reveal_strlit("stm"); assert("stm"@[0] != "blx"@[0]); lemma_words_differ("stm", "blx"); }
        if k == 8 { assert(ARM_MOV@[8] == "push"); reveal_strlit("push"); assert("push"@.len() != "blx"@.len()); lemma_words_differ("push", "blx"); }
        if k == 9 { assert(ARM_MOV@[9] == "pop"); reveal_strlit("pop"); assert("pop"@[0] != "blx"@[0]); lemma_words_differ("pop", "blx"); }
        if k == 10 { assert(ARM_MOV@[10] == "ldrb"); reveal_strlit("ldrb"); assert("ldrb"@.len() != "blx"@.len()); lemma_words_differ("ldrb", "blx"); }
        if k == 11 { assert(ARM_MOV@[11] == "strb"); reveal_strlit("strb"); assert("strb"@.len() != "blx"@.len()); lemma_words_differ("strb", "blx"); }
        if k == 12 { assert(ARM_MOV@[12] == "ldrh"); reveal_strlit("ldrh"); assert("ldrh"@.len() != "blx"@.len()); lemma_words_differ("ldrh", "blx"); }
        if k == 13 { assert(ARM_MOV@[13] == "strh"); reveal_strlit("strh"); assert("strh"@.len() != "blx"@.len()); lemma_words_differ("strh", "blx"); }
    }
    assert forall|k: int| 0 <= k < 9 implies #[trigger] ARM_ARITHMETIC@[k].spec_bytes() != "blx".spec_bytes() by {
        if k == 0 { assert(ARM_ARITHMETIC@[0] == "add"); reveal_strlit("add"); assert("add"@[0] != "blx"@[0]); lemma_words_differ("add", "blx"); }
        if k == 1 { assert(ARM_ARITHMETIC@[1] == "sub"); reveal_strlit("sub"); assert("sub"@[0] != "blx"@[0]); lemma_words_differ("sub", "blx"); }
        if k == 2 { assert(ARM_ARITHMETIC@[2] == "mul"); reveal_strlit("mul"); assert("mul"@[0] != "blx"@[0]); lemma_words_differ("mul", "blx"); }
        if k == 3 { assert(ARM_ARITHMETIC@[3] == "mla"); reveal_strlit("mla"); assert("mla"@[0] != "blx"@[0]); lemma_words_differ("mla", "blx"); }
        if k == 4 { assert(ARM_ARITHMETIC@[4] == "sdiv"); reveal_strlit("sdiv"); assert("sdiv"@.len() != "blx"@.len()); lemma_words_differ("sdiv", "blx"); }
        if k == 5 { assert(ARM_ARITHMETIC@[5] == "udiv"); reveal_strlit("udiv"); assert("udiv"@.len() != "blx"@.len()); lemma_words_differ("udiv", "blx"); }
        if k == 6 { assert(ARM_ARITHMETIC@[6] == "adc"); reveal_strlit("adc"); assert("adc"@[0] != "blx"@[0]); lemma_words_differ("adc", "blx"); }
        if k == 7 { assert(ARM_ARITHMETIC@[7] == "sbc"); reveal_strlit("sbc"); assert("sbc"@[0] != "blx"@[0]); lemma_words_differ("sbc", "blx"); }
        if k == 8 { assert(ARM_ARITHMETIC@[8] == "rsb"); reveal_strlit("rsb"); assert("rsb"@[0] != "blx"@[0]); lemma_words_differ("rsb", "blx"); }
    }
    assert forall|k: int| 0 <= k < 8 implies #[trigger] ARM_LOGIC@[k].spec_bytes() != "blx".spec_bytes() by {
        if k == 0 { assert(ARM_LOGIC@[0] == "and"); reveal_strlit("and"); assert("and"@[0] != "blx"@[0]); lemma_words_differ("and", "blx"); }
        if k == 1 { assert(ARM_LOGIC@[1] == "orr"); reveal_strlit("orr"); assert("orr"@[0] != "blx"@[0]); lemma_words_differ("orr", "blx"); }
        if k == 2 { assert(ARM_LOGIC@[2] == "eor"); reveal_strlit("eor"); assert("eor"@[0] != "blx"@[0]); lemma_words_differ("eor", "blx"); }
        if k == 3 { assert(ARM_LOGIC@[3] == "bic"); reveal_strlit("bic"); assert("bic"@[1] != "blx"@[1]); lemma_words_differ("bic", "blx"); }
        if k == 4 { assert(ARM_LOGIC@[4] == "lsl"); reveal_strlit("lsl"); assert("lsl"@[0] != "blx"@[0]); lemma_words_differ("lsl", "blx"); }
        if k == 5 { assert(ARM_LOGIC@[5] == "lsr"); reveal_strlit("lsr"); assert("lsr"@[0] != "blx"@[0]); lemma_words_differ("lsr", "blx"); }
        if k == 6 { assert(ARM_LOGIC@[6] == "asr"); reveal_strlit("asr"); assert("asr"@[0] != "blx"@[0]); lemma_words_differ("asr", "blx"); }
        if k == 7 { assert(ARM_LOGIC@[7] == "ror"); reveal_strlit("ror"); assert("ror"@[0] != "blx"@[0]); lemma_words_differ("ror", "blx"); }
    }
}

proof fn lemma_arm_word_cbz()
    ensures
        crate::instruction::spec_categorize_arm("cbz".spec_bytes()) == Category::ControlFlow,
{
    reveal_strlit("cbz");
    assert(ARM_CONTROL@[4] == "cbz");
    assert forall|k: int| 0 <= k < 14 implies #[trigger] ARM_MOV@[k].spec_bytes() != "cbz".spec_bytes() by {
        if k == 0 { assert(ARM_MOV@[0] == "mov"); reveal_strlit("mov"); assert("mov"@[0] != "cbz"@[0]); lemma_words_differ("mov", "cbz"); }
        if k == 1 { assert(ARM_MOV@[1] == "movw"); reveal_strlit("movw"); assert("movw"@.len() != "cbz"@.len()); lemma_words_differ("movw", "cbz"); }
        if k == 2 { assert(ARM_MOV@[2] == "movt"); reveal_strlit("movt"); assert("movt"@.len() != "cbz"@.len()); lemma_words_differ("movt", "cbz"); }
        if k == 3 { assert(ARM_MOV@[3] == "mvn"); reveal_strlit("mvn"); assert("mvn"@[0] != "cbz"@[0]); lemma_words_differ("mvn", "cbz"); }
        if k == 4 { assert(ARM_MOV@[4] == "ldr"); reveal_strlit("ldr"); assert("ldr"@[0] != "cbz"@[0]); lemma_words_differ("ldr", "cbz"); }
        if k == 5 { assert(ARM_MOV@[5] == "str"); reveal_strlit("str"); assert("str"@[0] != "cbz"@[0]); lemma_words_differ("str", "cbz"); }
        if k == 6 { assert(ARM_MOV@[6] == "ldm"); reveal_strlit("ldm"); assert("ldm"@[0] != "cbz"@[0]); lemma_words_differ("ldm", "cbz"); }
        if k == 7 { assert(ARM_MOV@[7] == "stm"); reveal_strlit("stm"); assert("stm"@[0] != "cbz"@[0]); lemma_words_differ("stm", "cbz"); }
        if k == 8 { assert(ARM_MOV@[8] == "push"); reveal_strlit("push"); assert("push"@.len() != "cbz"@.len()); lemma_words_differ("push", "cbz"); }
        if k == 9 { assert(ARM_MOV@[9] == "pop"); reveal_strlit("pop"); assert("pop"@[0] != "cbz"@[0]); lemma_words_differ("pop", "cbz"); }
        if k == 10 { assert(ARM_MOV@[10] == "ldrb"); reveal_strlit("ldrb"); assert("ldrb"@.len() != "cbz"@.len()); lemma_words_differ("ldrb", "cbz"); }
        if k == 11 { assert(ARM_MOV@[11] == "strb"); reveal_strlit("strb"); assert("strb"@.len() != "cbz"@.len()); lemma_words_differ("strb", "cbz"); }
        if k == 12 { assert(ARM_MOV@[12] == "ldrh"); reveal_strlit("ldrh"); assert("ldrh"@.len() != "cbz"@.len()); lemma_words_differ("ldrh", "cbz"); }
        if k == 13 { assert(ARM_MOV@[13] == "strh"); reveal_strlit("strh"); assert("strh"@.len() != "cbz"@.len()); lemma_words_differ("strh", "cbz"); }
    }
    assert forall|k: int| 0 <= k < 9 implies #[trigger] ARM_ARITHMETIC@[k].spec_bytes() != "cbz".spec_bytes() by {
        if k == 0 { assert(ARM_ARITHMETIC@[0] == "add"); reveal_strlit("add"); assert("add"@[0] != "cbz"@[0]); lemma_words_differ("add", "cbz"); }
        if k == 1 { assert(ARM_ARITHMETIC@[1] == "sub"); reveal_strlit("sub"); assert("sub"@[0] != "cbz"@[0]); lemma_words_differ("sub", "cbz"); }
        if k == 2 { assert(ARM_ARITHMETIC@[2] == "mul"); reveal_strlit("mul"); assert("mul"@[0] != "cbz"@[0]); lemma_words_differ("mul", "cbz"); }
        if k == 3 { assert(ARM_ARITHMETIC@[3] == "mla"); reveal_strlit("mla"); assert("mla"@[0] != "cbz"@[0]); lemma_words_differ("mla", "cbz"); }
        if k == 4 { assert(ARM_ARITHMETIC@[4] == "sdiv"); reveal_strlit("sdiv"); assert("sdiv"@.len() != "cbz"@.len()); lemma_words_differ("sdiv", "cbz"); }
        if k == 5 { assert(ARM_ARITHMETIC@[5] == "udiv"); reveal_strlit("udiv"); assert("udiv"@.len() != "cbz"@.len()); lemma_words_differ("udiv", "cbz"); }
        if k == 6 { assert(ARM_ARITHMETIC@[6] == "adc"); reveal_strlit("adc"); assert("adc"@[0] != "cbz"@[0]); lemma_words_differ("adc", "cbz"); }
        if k == 7 { assert(ARM_ARITHMETIC@[7] == "sbc"); reveal_strlit("sbc"); assert("sbc"@[0] != "cbz"@[0]); lemma_words_differ("sbc", "cbz"); }
        if k == 8 { assert(ARM_ARITHMETIC@[8] == "rsb"); reveal_strlit("rsb"); assert("rsb"@[0] != "cbz"@[0]); lemma_words_differ("rsb", "cbz"); }
    }
    assert forall|k: int| 0 <= k < 8 implies #[trigger] ARM_LOGIC@[k].spec_bytes() != "cbz".spec_bytes() by {
        if k == 0 { assert(ARM_LOGIC@[0] == "and"); reveal_strlit("and"); assert("and"@[0] != "cbz"@[0]); lemma_words_differ("and", "cbz"); }
        if k == 1 { assert(ARM_LOGIC@[1] == "orr"); reveal_strlit("orr"); assert("orr"@[0] != "cbz"@[0]); lemma_words_differ("orr", "cbz"); }
        if k == 2 { assert(ARM_LOGIC@[2] == "eor"); reveal_strlit("eor"); assert("eor"@[0] != "cbz"@[0]); lemma_words_differ("eor", "cbz"); }
        if k == 3 { assert(ARM_LOGIC@[3] == "bic"); reveal_strlit("bic"); assert("bic"@[0] != "cbz"@[0]); lemma_words_differ("bic", "cbz"); }
        if k == 4 { assert(ARM_LOGIC@[4] == "lsl"); reveal_strlit("lsl"); assert("lsl"@[0] != "cbz"@[0]); lemma_words_differ("lsl", "cbz"); }
        if k == 5 { assert(ARM_LOGIC@[5] == "lsr"); reveal_strlit("lsr"); assert("lsr"@[0] != "cbz"@[0]); lemma_words_differ("lsr", "cbz"); }
        if k == 6 { assert(ARM_LOGIC@[6] == "asr"); reveal_strlit("asr"); assert("asr"@[0] != "cbz"@[0]); lemma_words_differ("asr", "cbz"); }
        if k == 7 { assert(ARM_LOGIC@[7] == "ror"); reveal_strlit("ror"); assert("ror"@[0] != "cbz"@[0]); lemma_words_differ("ror", "cbz"); }
    }
}

proof fn lemma_arm_word_cbnz()
    ensures
        crate::instruction::spec_categorize_arm("cbnz".spec_bytes()) == Category::ControlFlow,
{
    reveal_strlit("cbnz");
    assert(ARM_CONTROL@[5] == "cbnz");
    assert forall|k: int| 0 <= k < 14 implies #[trigger] ARM_MOV@[k].spec_bytes() != "cbnz".spec_bytes() by {
        if k == 0 { assert(ARM_MOV@[0] == "mov"); reveal_strlit("mov"); assert("mov"@.len() != "cbnz"@.len()); lemma_words_differ("mov", "cbnz"); }
        if k == 1 { assert(ARM_MOV@[1] == "movw"); reveal_strlit("movw"); assert("movw"@[0] != "cbnz"@[0]); lemma_words_differ("movw", "cbnz"); }
        if k == 2 { assert(ARM_MOV@[2] == "movt"); reveal_strlit("movt"); assert("movt"@[0] != "cbnz"@[0]); lemma_words_differ("movt", "cbnz"); }
        if k == 3 { assert(ARM_MOV@[3] == "mvn"); reveal_strlit("mvn"); assert("mvn"@.len() != "cbnz"@.len()); lemma_words_differ("mvn", "cbnz"); }
        if k == 4 { assert(ARM_MOV@[4] == "ldr"); reveal_strlit("ldr"); assert("ldr"@.len() != "cbnz"@.len()); lemma_words_differ("ldr", "cbnz"); }
        if k == 5 { assert(ARM_MOV@[5] == "str"); reveal_strlit("str"); assert("str"@.len() != "cbnz"@.len()); lemma_words_differ("str", "cbnz"); }
        if k == 6 { assert(ARM_MOV@[6] == "ldm"); reveal_strlit("ldm"); assert("ldm"@.len() != "cbnz"@.len()); lemma_words_differ("ldm", "cbnz"); }
        if k == 7 { assert(ARM_MOV@[7] == "stm"); reveal_strlit("stm"); assert("stm"@.len() != "cbnz"@.len()); lemma_words_differ("stm", "cbnz"); }
        if k == 8 { assert(ARM_MOV@[8] == "push"); reveal_strlit("push"); assert("push"@[0] != "cbnz"@[0]); lemma_words_differ("push", "cbnz"); }
        if k == 9 { assert(ARM_MOV@[9] == "pop"); reveal_strlit("pop"); assert("pop"@.len() != "cbnz"@.len()); lemma_words_differ("pop", "cbnz"); }
        if k == 10 { assert(ARM_MOV@[10] == "ldrb"); reveal_strlit("ldrb"); assert("ldrb"@[0] != "cbnz"@[0]); lemma_words_differ("ldrb", "cbnz"); }
        if k == 11 { assert(ARM_MOV@[11] == "strb"); reveal_strlit("strb"); assert("strb"@[0] != "cbnz"@[0]); lemma_words_differ("strb", "cbnz"); }
        if k == 12 { assert(ARM_MOV@[12] == "ldrh"); reveal_strlit("ldrh"); assert("ldrh"@[0] != "cbnz"@[0]); lemma_words_differ("ldrh", "cbnz"); }
        if k == 13 { assert(ARM_MOV@[13] == "strh"); reveal_strlit("strh"); assert("strh"@[0] != "cbnz"@[0]); lemma_words_differ("strh", "cbnz"); }
    }
    assert forall|k: int| 0 <= k < 9 implies #[trigger] ARM_ARITHMETIC@[k].spec_bytes() != "cbnz".spec_bytes() by {
        if k == 0 { assert(ARM_ARITHMETIC@[0] == "add"); reveal_strlit("add"); assert("add"@.len() != "cbnz"@.len()); lemma_words_differ("add", "cbnz"); }
        if k == 1 { assert(ARM_ARITHMETIC@[1] == "sub"); reveal_strlit("sub"); assert("sub"@.len() != "cbnz"@.len()); lemma_words_differ("sub", "cbnz"); }
        if k == 2 { assert(ARM_ARITHMETIC@[2] == "mul"); reveal_strlit("mul"); assert("mul"@.len() != "cbnz"@.len()); lemma_words_differ("mul", "cbnz"); }
        if k == 3 { assert(ARM_ARITHMETIC@[3] == "mla"); reveal_strlit("mla"); assert("mla"@.len() != "cbnz"@.len()); lemma_words_differ("mla", "cbnz"); }
        if k == 4 { assert(ARM_ARITHMETIC@[4] == "sdiv"); reveal_strlit("sdiv"); assert("sdiv"@[0] != "cbnz"@[0]); lemma_words_differ("sdiv", "cbnz"); }
        if k == 5 { assert(ARM_ARITHMETIC@[5] == "udiv"); reveal_strlit("udiv"); assert("udiv"@[0] != "cbnz"@[0]); lemma_words_differ("udiv", "cbnz"); }
        if k == 6 { assert(ARM_ARITHMETIC@[6] == "adc"); reveal_strlit("adc"); assert("adc"@.len() != "cbnz"@.len()); lemma_words_differ("adc", "cbnz"); }
        if k == 7 { assert(ARM_ARITHMETIC@[7] == "sbc"); reveal_strlit("sbc"); assert("sbc"@.len() != "cbnz"@.len()); lemma_words_differ("sbc", "cbnz"); }
        if k == 8 { assert(ARM_ARITHMETIC@[8] == "rsb"); reveal_strlit("rsb"); assert("rsb"@.len() != "cbnz"@.len()); lemma_words_differ("rsb", "cbnz"); }
    }
    assert forall|k: int| 0 <= k < 8 implies #[trigger] ARM_LOGIC@[k].spec_bytes() != "cbnz".spec_bytes() by {
        if k == 0 { assert(ARM_LOGIC@[0] == "and"); reveal_strlit("and"); assert("and"@.len() != "cbnz"@.len()); lemma_words_differ("and", "cbnz"); }
        if k == 1 { assert(ARM_LOGIC@[1] == "orr"); reveal_strlit("orr"); assert("orr"@.len() != "cbnz"@.len()); lemma_words_differ("orr", "cbnz"); }
        if k == 2 { assert(ARM_LOGIC@[2] == "eor"); reveal_strlit("eor"); assert("eor"@.len() != "cbnz"@.len()); lemma_words_differ("eor", "cbnz"); }
        if k == 3 { assert(ARM_LOGIC@[3] == "bic"); reveal_strlit("bic"); assert("bic"@.len() != "cbnz"@.len()); lemma_words_differ("bic", "cbnz"); }
        if k == 4 { assert(ARM_LOGIC@[4] == "lsl"); reveal_strlit("lsl"); assert("lsl"@.len() != "cbnz"@.len()); lemma_words_differ("lsl", "cbnz"); }
        if k == 5 { assert(ARM_LOGIC@[5] == "lsr"); reveal_strlit("lsr"); assert("lsr"@.len() != "cbnz"@.len()); lemma_words_differ("lsr", "cbnz"); }
        if k == 6 { assert(ARM_LOGIC@[6] == "asr"); reveal_strlit("asr"); assert("asr"@.len() != "cbnz"@.len()); lemma_words_differ("asr", "cbnz"); }
        if k == 7 { assert(ARM_LOGIC@[7] == "ror"); reveal_strlit("ror"); assert("ror"@.len() != "cbnz"@.len()); lemma_words_differ("ror", "cbnz"); }
    }
}

proof fn lemma_arm_controlflow_words(m: Seq<u8>)
    requires
        m == "b".spec_bytes() || m == "bl".spec_bytes() || m == "bx".spec_bytes() || m == "blx".spec_bytes() || m == "cbz".spec_bytes() || m == "cbnz".spec_bytes(),
    ensures
        crate::instruction::spec_categorize_arm(m) == Category::ControlFlow,
        crate::instruction::spec_categorize(m, ArchKind::Arm) == Category::ControlFlow,
        crate::instruction::listing_counts(seq![Some(m)], ArchKind::Arm) == (1int, 0int, 0int, 0int, 1int, 0int),
{
    if m == "b".spec_bytes() {
        lemma_arm_word_b();
        reveal_strlit("b");
        lemma_lower_fixed("b");
    }
    if m == "bl".spec_bytes() {
        lemma_arm_word_bl();
        reveal_strlit("bl");
        lemma_lower_fixed("bl");
    }
    if m == "bx".spec_bytes() {
        lemma_arm_word_bx();
        reveal_strlit("bx");
        lemma_lower_fixed("bx");
    }
    if m == "blx".spec_bytes() {
        lemma_arm_word_blx();
        reveal_strlit("blx");
        lemma_lower_fixed("blx");
    }
    if m == "cbz".spec_bytes() {
        lemma_arm_word_cbz();
        reveal_strlit("cbz");
        lemma_lower_fixed("cbz");
    }
    if m == "cbnz".spec_bytes() {
        lemma_arm_word_cbnz();
        reveal_strlit("cbnz");
        lemma_lower_fixed("cbnz");
    }
    assert(seq![Some(m)].drop_last() =~= Seq::<Option<Seq<u8>>>::empty());
    assert(seq![Some(m)].last() == Some(m));
    assert(crate::instruction::listing_counts(Seq::<Option<Seq<u8>>>::empty(), ArchKind::Arm) == (0int, 0int, 0int, 0int, 0int, 0int));
}

proof fn lemma_arm_word_svc()
    ensures
        crate::instruction::spec_categorize_arm("svc".spec_bytes()) == Category::System,
{
    reveal_strlit("svc");
    assert(ARM_SYSTEM@[0] == "svc");
    assert forall|k: int| 0 <= k < 14 implies #[trigger] ARM_MOV@[k].spec_bytes() != "svc".spec_bytes() by {
        if k == 0 { assert(ARM_MOV@[0] == "mov"); reveal_strlit("mov"); assert("mov"@[0] != "svc"@[0]); lemma_words_differ("mov", "svc"); }
        if k == 1 { assert(ARM_MOV@[1] == "movw"); reveal_strlit("movw"); assert("movw"@.len() != "svc"@.len()); lemma_words_differ("movw", "svc"); }
        if k == 2 { assert(ARM_MOV@[2] == "movt"); reveal_strlit("movt"); assert("movt"@.len() != "svc"@.len()); lemma_words_differ("movt", "svc"); }
        if k == 3 { assert(ARM_MOV@[3] == "mvn"); reveal_strlit("mvn"); assert("mvn"@[0] != "svc"@[0]); lemma_words_differ("mvn", "svc"); }
        if k == 4 { assert(ARM_MOV@[4] == "ldr"); reveal_strlit("ldr"); assert("ldr"@[0] != "svc"@[0]); lemma_words_differ("ldr", "svc"); }
        if k == 5 { assert(ARM_MOV@[5] == "str"); reveal_strlit("str"); assert("str"@[1] != "svc"@[1]); lemma_words_differ("str", "svc"); }
        if k == 6 { assert(ARM_MOV@[6] == "ldm"); reveal_strlit("ldm"); assert("ldm"@[0] != "svc"@[0]); lemma_words_differ("ldm", "svc"); }
        if k == 7 { assert(ARM_MOV@[7] == "stm"); reveal_strlit("stm"); assert("stm"@[1] != "svc"@[1]); lemma_words_differ("stm", "svc"); }
        if k == 8 { assert(ARM_MOV@[8] == "push"); reveal_strlit("push"); assert("push"@.len() != "svc"@.len()); lemma_words_differ("push", "svc"); }
        if k == 9 { assert(ARM_MOV@[9] == "pop"); reveal_strlit("pop"); assert("pop"@[0] != "svc"@[0]); lemma_words_differ("pop", "svc"); }
        if k == 10 { assert(ARM_MOV@[10] == "ldrb"); reveal_strlit("ldrb"); assert("ldrb"@.len() != "svc"@.len()); lemma_words_differ("ldrb", "svc"); }
        if k == 11 { assert(ARM_MOV@[11] == "strb"); reveal_strlit("strb"); assert("strb"@.len() != "svc"@.len()); lemma_words_differ("strb", "svc"); }
        if k == 12 { assert(ARM_MOV@[12] == "ldrh"); reveal_strlit("ldrh"); assert("ldrh"@.len() != "svc"@.len()); lemma_words_differ("ldrh", "svc"); }
        if k == 13 { assert(ARM_MOV@[13] == "strh"); reveal_strlit("strh"); assert("strh"@.len() != "svc"@.len()); lemma_words_differ("strh", "svc"); }
    }
    assert forall|k: int| 0 <= k < 9 implies #[trigger] ARM_ARITHMETIC@[k].spec_bytes() != "svc".spec_bytes() by {
        if k == 0 { assert(ARM_ARITHMETIC@[0] == "add"); reveal_strlit("add"); assert("add"@[0] != "svc"@[0]); lemma_words_differ("add", "svc"); }
        if k == 1 { assert(ARM_ARITHMETIC@[1] == "sub"); reveal_strlit("sub"); assert("sub"@[1] != "svc"@[1]); lemma_words_differ("sub", "svc"); }
        if k == 2 { assert(ARM_ARITHMETIC@[2] == "mul"); reveal_strlit("mul"); assert("mul"@[0] != "svc"@[0]); lemma_words_differ("mul", "svc"); }
        if k == 3 { assert(ARM_ARITHMETIC@[3] == "mla"); reveal_strlit("mla"); assert("mla"@[0] != "svc"@[0]); lemma_words_differ("mla", "svc"); }
        if k == 4 { assert(ARM_ARITHMETIC@[4] == "sdiv"); reveal_strlit("sdiv"); assert("sdiv"@.len() != "svc"@.len()); lemma_words_differ("sdiv", "svc"); }
        if k == 5 { assert(ARM_ARITHMETIC@[5] == "udiv"); reveal_strlit("udiv"); assert("udiv"@.len() != "svc"@.len()); lemma_words_differ("udiv", "svc"); }
        if k == 6 { assert(ARM_ARITHMETIC@[6] == "adc"); reveal_strlit("adc"); assert("adc"@[0] != "svc"@[0]); lemma_words_differ("adc", "svc"); }
        if k == 7 { assert(ARM_ARITHMETIC@[7] == "sbc"); reveal_strlit("sbc"); assert("sbc"@[1] != "svc"@[1]); lemma_words_differ("sbc", "svc"); }
        if k == 8 { assert(ARM_ARITHMETIC@[8] == "rsb"); reveal_strlit("rsb"); assert("rsb"@[0] != "svc"@[0]); lemma_words_differ("rsb", "svc"); }
    }
    assert forall|k: int| 0 <= k < 8 implies #[trigger] ARM_LOGIC@[k].spec_bytes() != "svc".spec_bytes() by {
        if k == 0 { assert(ARM_LOGIC@[0] == "and"); reveal_strlit("and"); assert("and"@[0] != "svc"@[0]); lemma_words_differ("and", "svc"); }
        if k == 1 { assert(ARM_LOGIC@[1] == "orr"); reveal_strlit("orr"); assert("orr"@[0] != "svc"@[0]); lemma_words_differ("orr", "svc"); }
        if k == 2 { assert(ARM_LOGIC@[2] == "eor"); reveal_strlit("eor"); assert("eor"@[0] != "svc"@[0]); lemma_words_differ("eor", "svc"); }
        if k == 3 { assert(ARM_LOGIC@[3] == "bic"); reveal_strlit("bic"); assert("bic"@[0] != "svc"@[0]); lemma_words_differ("bic", "svc"); }
        if k == 4 { assert(ARM_LOGIC@[4] == "lsl"); reveal_strlit("lsl"); assert("lsl"@[0] != "svc"@[0]); lemma_words_differ("lsl", "svc"); }
        if k == 5 { assert(ARM_LOGIC@[5] == "lsr"); reveal_strlit("lsr"); assert("lsr"@[0] != "svc"@[0]); lemma_words_differ("lsr", "svc"); }
        if k == 6 { assert(ARM_LOGIC@[6] == "asr"); reveal_strlit("asr"); assert("asr"@[0] != "svc"@[0]); lemma_words_differ("asr", "svc"); }
        if k == 7 { assert(ARM_LOGIC@[7] == "ror"); reveal_strlit("ror"); assert("ror"@[0] != "svc"@[0]); lemma_words_differ("ror", "svc"); }
    }
    assert forall|k: int| 0 <= k < 6 implies #[trigger] ARM_CONTROL@[k].spec_bytes() != "svc".spec_bytes() by {
        if k == 0 { assert(ARM_CONTROL@[0] == "b"); reveal_strlit("b"); assert("b"@.len() != "svc"@.len()); lemma_words_differ("b", "svc"); }
        if k == 1 { assert(ARM_CONTROL@[1] == "bl"); reveal_strlit("bl"); assert("bl"@.len() != "svc"@.len()); lemma_words_differ("bl", "svc"); }
        if k == 2 { assert(ARM_CONTROL@[2] == "bx"); reveal_strlit("bx"); assert("bx"@.len() != "svc"@.len()); lemma_words_differ("bx", "svc"); }
        if k == 3 { assert(ARM_CONTROL@[3] == "blx"); reveal_strlit("blx"); assert("blx"@[0] != "svc"@[0]); lemma_words_differ("blx", "svc"); }
        if k == 4 { assert(ARM_CONTROL@[4] == "cbz"); reveal_strlit("cbz"); assert("cbz"@[0] != "svc"@[0]); lemma_words_differ("cbz", "svc"); }
        if k == 5 { assert(ARM_CONTROL@[5] == "cbnz"); reveal_strlit("cbnz"); assert("cbnz"@.len() != "svc"@.len()); lemma_words_differ("cbnz", "svc"); }
    }
}

proof fn lemma_arm_word_swi()
    ensures
        crate::instruction::spec_categorize_arm("swi".spec_bytes()) == Category::System,
{
    reveal_strlit("swi");
    assert(ARM_SYSTEM@[1] == "swi");
    assert forall|k: int| 0 <= k < 14 implies #[trigger] ARM_MOV@[k].spec_bytes() != "swi".spec_bytes() by {
        if k == 0 { assert(ARM_MOV@[0] == "mov"); reveal_strlit("mov"); assert("mov"@[0] != "swi"@[0]); lemma_words_differ("mov", "swi"); }
        if k == 1 { assert(ARM_MOV@[1] == "movw"); reveal_strlit("movw"); assert("movw"@.len() != "swi"@.len()); lemma_words_differ("movw", "swi"); }
        if k == 2 { assert(ARM_MOV@[2] == "movt"); reveal_strlit("movt"); assert("movt"@.len() != "swi"@.len()); lemma_words_differ("movt", "swi"); }
        if k == 3 { assert(ARM_MOV@[3] == "mvn"); reveal_strlit("mvn"); assert("mvn"@[0] != "swi"@[0]); lemma_words_differ("mvn", "swi"); }
        if k == 4 { assert(ARM_MOV@[4] == "ldr"); reveal_strlit("ldr"); assert("ldr"@[0] != "swi"@[0]); lemma_words_differ("ldr", "swi"); }
        if k == 5 { assert(ARM_MOV@[5] == "str"); reveal_strlit("str"); assert("str"@[1] != "swi"@[1]); lemma_words_differ("str", "swi"); }
        if k == 6 { assert(ARM_MOV@[6] == "ldm"); reveal_strlit("ldm"); assert("ldm"@[0] != "swi"@[0]); lemma_words_differ("ldm", "swi"); }
        if k == 7 { assert(ARM_MOV@[7] == "stm"); reveal_strlit("stm"); assert("stm"@[1] != "swi"@[1]); lemma_words_differ("stm", "swi"); }
        if k == 8 { assert(ARM_MOV@[8] == "push"); reveal_strlit("push"); assert("push"@.len() != "swi"@.len()); lemma_words_differ("push", "swi"); }
        if k == 9 { assert(ARM_MOV@[9] == "pop"); reveal_strlit("pop"); assert("pop"@[0] != "swi"@[0]); lemma_words_differ("pop", "swi"); }
        if k == 10 { assert(ARM_MOV@[10] == "ldrb"); reveal_strlit("ldrb"); assert("ldrb"@.len() != "swi"@.len()); lemma_words_differ("ldrb", "swi"); }
        if k == 11 { assert(ARM_MOV@[11] == "strb"); reveal_strlit("strb"); assert("strb"@.len() != "swi"@.len()); lemma_words_differ("strb", "swi"); }
        if k == 12 { assert(ARM_MOV@[12] == "ldrh"); reveal_strlit("ldrh"); assert("ldrh"@.len() != "swi"@.len()); lemma_words_differ("ldrh", "swi"); }
        if k == 13 { assert(ARM_MOV@[13] == "strh"); reveal_strlit("strh"); assert("strh"@.len() != "swi"@.len()); lemma_words_differ("strh", "swi"); }
    }
    assert forall|k: int| 0 <= k < 9 implies #[trigger] ARM_ARITHMETIC@[k].spec_bytes() != "swi".spec_bytes() by {
        if k == 0 { assert(ARM_ARITHMETIC@[0] == "add"); reveal_strlit("add"); assert("add"@[0] != "swi"@[0]); lemma_words_differ("add", "swi"); }
        if k == 1 { assert(ARM_ARITHMETIC@[1] == "sub"); reveal_strlit("sub"); assert("sub"@[1] != "swi"@[1]); lemma_words_differ("sub", "swi"); }
        if k == 2 { assert(ARM_ARITHMETIC@[2] == "mul"); reveal_strlit("mul"); assert("mul"@[0] != "swi"@[0]); lemma_words_differ("mul", "swi"); }
        if k == 3 { assert(ARM_ARITHMETIC@[3] == "mla"); reveal_strlit("mla"); assert("mla"@[0] != "swi"@[0]); lemma_words_differ("mla", "swi"); }
        if k == 4 { assert(ARM_ARITHMETIC@[4] == "sdiv"); reveal_strlit("sdiv"); assert("sdiv"@.len() != "swi"@.len()); lemma_words_differ("sdiv", "swi"); }
        if k == 5 { assert(ARM_ARITHMETIC@[5] == "udiv"); reveal_strlit("udiv"); assert("udiv"@.len() != "swi"@.len()); lemma_words_differ("udiv", "swi"); }
        if k == 6 { assert(ARM_ARITHMETIC@[6] == "adc"); reveal_strlit("adc"); assert("adc"@[0] != "swi"@[0]); lemma_words_differ("adc", "swi"); }
        if k == 7 { assert(ARM_ARITHMETIC@[7] == "sbc"); reveal_strlit("sbc"); assert("sbc"@[1] != "swi"@[1]); lemma_words_differ("sbc", "swi"); }
        if k == 8 { assert(ARM_ARITHMETIC@[8] == "rsb"); reveal_strlit("rsb"); assert("rsb"@[0] != "swi"@[0]); lemma_words_differ("rsb", "swi"); }
    }
    assert forall|k: int| 0 <= k < 8 implies #[trigger] ARM_LOGIC@[k].spec_bytes() != "swi".spec_bytes() by {
        if k == 0 { assert(ARM_LOGIC@[0] == "and"); reveal_strlit("and"); assert("and"@[0] != "swi"@[0]); lemma_words_differ("and", "swi"); }
        if k == 1 { assert(ARM_LOGIC@[1] == "orr"); reveal_strlit("orr"); assert("orr"@[0] != "swi"@[0]); lemma_words_differ("orr", "swi"); }
        if k == 2 { assert(ARM_LOGIC@[2] == "eor"); reveal_strlit("eor"); assert("eor"@[0] != "swi"@[0]); lemma_words_differ("eor", "swi"); }
        if k == 3 { assert(ARM_LOGIC@[3] == "bic"); reveal_strlit("bic"); assert("bic"@[0] != "swi"@[0]); lemma_words_differ("bic", "swi"); }
        if k == 4 { assert(ARM_LOGIC@[4] == "lsl"); reveal_strlit("lsl"); assert("lsl"@[0] != "swi"@[0]); lemma_words_differ("lsl", "swi"); }
        if k == 5 { assert(ARM_LOGIC@[5] == "lsr"); reveal_strlit("lsr"); assert("lsr"@[0] != "swi"@[0]); lemma_words_differ("lsr", "swi"); }
        if k == 6 { assert(ARM_LOGIC@[6] == "asr"); reveal_strlit("asr"); assert("asr"@[0] != "swi"@[0]); lemma_words_differ("asr", "swi"); }
        if k == 7 { assert(ARM_LOGIC@[7] == "ror"); reveal_strlit("ror"); assert("ror"@[0] != "swi"@[0]); lemma_words_differ("ror", "swi"); }
    }
    assert forall|k: int| 0 <= k < 6 implies #[trigger] ARM_CONTROL@[k].spec_bytes() != "swi".spec_bytes() by {
        if k == 0 { assert(ARM_CONTROL@[0] == "b"); reveal_strlit("b"); assert("b"@.len() != "swi"@.len()); lemma_words_differ("b", "swi"); }
        if k == 1 { assert(ARM_CONTROL@[1] == "bl"); reveal_strlit("bl"); assert("bl"@.len() != "swi"@.len()); lemma_words_differ("bl", "swi"); }
        if k == 2 { assert(ARM_CONTROL@[2] == "bx"); reveal_strlit("bx"); assert("bx"@.len() != "swi"@.len()); lemma_words_differ("bx", "swi"); }
        if k == 3 { assert(ARM_CONTROL@[3] == "blx"); reveal_strlit("blx"); assert("blx"@[0] != "swi"@[0]); lemma_words_differ("blx", "swi"); }
        if k == 4 { assert(ARM_CONTROL@[4] == "cbz"); reveal_strlit("cbz"); assert("cbz"@[0] != "swi"@[0]); lemma_words_differ("cbz", "swi"); }
        if k == 5 { assert(ARM_CONTROL@[5] == "cbnz"); reveal_strlit("cbnz"); assert("cbnz"@.len() != "swi"@.len()); lemma_words_differ("cbnz", "swi"); }
    }
}

proof fn lemma_arm_word_mrc()
    ensures
        crate::instruction::spec_categorize_arm("mrc".spec_bytes()) == Category::System,
{
    reveal_strlit("mrc");
    assert(ARM_SYSTEM@[2] == "mrc");
    assert forall|k: int| 0 <= k < 14 implies #[trigger] ARM_MOV@[k].spec_bytes() != "mrc".spec_bytes() by {
        if k == 0 { assert(ARM_MOV@[0] == "mov"); reveal_strlit("mov"); assert("mov"@[1] != "mrc"@[1]); lemma_words_differ("mov", "mrc"); }
        if k == 1 { assert(ARM_MOV@[1] == "movw"); reveal_strlit("movw"); assert("movw"@.len() != "mrc"@.len()); lemma_words_differ("movw", "mrc"); }
        if k == 2 { assert(ARM_MOV@[2] == "movt"); reveal_strlit("movt"); assert("movt"@.len() != "mrc"@.len()); lemma_words_differ("movt", "mrc"); }
        if k == 3 { assert(ARM_MOV@[3] == "mvn"); reveal_strlit("mvn"); assert("mvn"@[1] != "mrc"@[1]); lemma_words_differ("mvn", "mrc"); }
        if k == 4 { assert(ARM_MOV@[4] == "ldr"); reveal_strlit("ldr"); assert("ldr"@[0] != "mrc"@[0]); lemma_words_differ("ldr", "mrc"); }
        if k == 5 { assert(ARM_MOV@[5] == "str"); reveal_strlit("str"); assert("str"@[0] != "mrc"@[0]); lemma_words_differ("str", "mrc"); }
        if k == 6 { assert(ARM_MOV@[6] == "ldm"); reveal_strlit("ldm"); assert("ldm"@[0] != "mrc"@[0]); lemma_words_differ("ldm", "mrc"); }
        if k == 7 { assert(ARM_MOV@[7] == "stm"); reveal_strlit("stm"); assert("stm"@[0] != "mrc"@[0]); lemma_words_differ("stm", "mrc"); }
        if k == 8 { assert(ARM_MOV@[8] == "push"); reveal_strlit("push"); assert("push"@.len() != "mrc"@.len()); lemma_words_differ("push", "mrc"); }
        if k == 9 { assert(ARM_MOV@[9] == "pop"); reveal_strlit("pop"); assert("pop"@[0] != "mrc"@[0]); lemma_words_differ("pop", "mrc"); }
        if k == 10 { assert(ARM_MOV@[10] == "ldrb"); reveal_strlit("ldrb"); assert("ldrb"@.len() != "mrc"@.len()); lemma_words_differ("ldrb", "mrc"); }
        if k == 11 { assert(ARM_MOV@[11] == "strb"); reveal_strlit("strb"); assert("strb"@.len() != "mrc"@.len()); lemma_words_differ("strb", "mrc"); }
        if k == 12 { assert(ARM_MOV@[12] == "ldrh"); reveal_strlit("ldrh"); assert("ldrh"@.len() != "mrc"@.len()); lemma_words_differ("ldrh", "mrc"); }
        if k == 13 { assert(ARM_MOV@[13] == "strh"); reveal_strlit("strh"); assert("strh"@.len() != "mrc"@.len()); lemma_words_differ("strh", "mrc"); }
    }
    assert forall|k: int| 0 <= k < 9 implies #[trigger] ARM_ARITHMETIC@[k].spec_bytes() != "mrc".spec_bytes() by {
        if k == 0 { assert(ARM_ARITHMETIC@[0] == "add"); reveal_strlit("add"); assert("add"@[0] != "mrc"@[0]); lemma_words_differ("add", "mrc"); }
        if k == 1 { assert(ARM_ARITHMETIC@[1] == "sub"); reveal_strlit("sub"); assert("sub"@[0] != "mrc"@[0]); lemma_words_differ("sub", "mrc"); }
        if k == 2 { assert(ARM_ARITHMETIC@[2] == "mul"); reveal_strlit("mul"); assert("mul"@[1] != "mrc"@[1]); lemma_words_differ("mul", "mrc"); }
        if k == 3 { assert(ARM_ARITHMETIC@[3] == "mla"); reveal_strlit("mla"); assert("mla"@[1] != "mrc"@[1]); lemma_words_differ("mla", "mrc"); }
        if k == 4 { assert(ARM_ARITHMETIC@[4] == "sdiv"); reveal_strlit("sdiv"); assert("sdiv"@.len() != "mrc"@.len()); lemma_words_differ("sdiv", "mrc"); }
        if k == 5 { assert(ARM_ARITHMETIC@[5] == "udiv"); reveal_strlit("udiv"); assert("udiv"@.len() != "mrc"@.len()); lemma_words_differ("udiv", "mrc"); }
        if k == 6 { assert(ARM_ARITHMETIC@[6] == "adc"); reveal_strlit("adc"); assert("adc"@[0] != "mrc"@[0]); lemma_words_differ("adc", "mrc"); }
        if k == 7 { assert(ARM_ARITHMETIC@[7] == "sbc"); reveal_strlit("sbc"); assert("sbc"@[0] != "mrc"@[0]); lemma_words_differ("sbc", "mrc"); }
        if k == 8 { assert(ARM_ARITHMETIC@[8] == "rsb"); reveal_strlit("rsb"); assert("rsb"@[0] != "mrc"@[0]); lemma_words_differ("rsb", "mrc"); }
    }
    assert forall|k: int| 0 <= k < 8 implies #[trigger] ARM_LOGIC@[k].spec_bytes() != "mrc".spec_bytes() by {
        if k == 0 { assert(ARM_LOGIC@[0] == "and"); reveal_strlit("and"); assert("and"@[0] != "mrc"@[0]); lemma_words_differ("and", "mrc"); }
        if k == 1 { assert(ARM_LOGIC@[1] == "orr"); reveal_strlit("orr"); assert("orr"@[0] != "mrc"@[0]); lemma_words_differ("orr", "mrc"); }
        if k == 2 { assert(ARM_LOGIC@[2] == "eor"); reveal_strlit("eor"); assert("eor"@[0] != "mrc"@[0]); lemma_words_differ("eor", "mrc"); }
        if k == 3 { assert(ARM_LOGIC@[3] == "bic"); reveal_strlit("bic"); assert("bic"@[0] != "mrc"@[0]); lemma_words_differ("bic", "mrc"); }
        if k == 4 { assert(ARM_LOGIC@[4] == "lsl"); reveal_strlit("lsl"); assert("lsl"@[0] != "mrc"@[0]); lemma_words_differ("lsl", "mrc"); }
        if k == 5 { assert(ARM_LOGIC@[5] == "lsr"); reveal_strlit("lsr"); assert("lsr"@[0] != "mrc"@[0]); lemma_words_differ("lsr", "mrc"); }
        if k == 6 { assert(ARM_LOGIC@[6] == "asr"); reveal_strlit("asr"); assert("asr"@[0] != "mrc"@[0]); lemma_words_differ("asr", "mrc"); }
        if k == 7 { assert(ARM_LOGIC@[7] == "ror"); reveal_strlit("ror"); assert("ror"@[0] != "mrc"@[0]); lemma_words_differ("ror", "mrc"); }
    }
    assert forall|k: int| 0 <= k < 6 implies #[trigger] ARM_CONTROL@[k].spec_bytes() != "mrc".spec_bytes() by {
        if k == 0 { assert(ARM_CONTROL@[0] == "b"); reveal_strlit("b"); assert("b"@.len() != "mrc"@.len()); lemma_words_differ("b", "mrc"); }
        if k == 1 { assert(ARM_CONTROL@[1] == "bl"); reveal_strlit("bl"); assert("bl"@.len() != "mrc"@.len()); lemma_words_differ("bl", "mrc"); }
        if k == 2 { assert(ARM_CONTROL@[2] == "bx"); reveal_strlit("bx"); assert("bx"@.len() != "mrc"@.len()); lemma_words_differ("bx", "mrc"); }
        if k == 3 { assert(ARM_CONTROL@[3] == "blx"); reveal_strlit("blx"); assert("blx"@[0] != "mrc"@[0]); lemma_words_differ("blx", "mrc"); }
        if k == 4 { assert(ARM_CONTROL@[4] == "cbz"); reveal_strlit("cbz"); assert("cbz"@[0] != "mrc"@[0]); lemma_words_differ("cbz", "mrc"); }
        if k == 5 { assert(ARM_CONTROL@[5] == "cbnz"); reveal_strlit("cbnz"); assert("cbnz"@.len() != "mrc"@.len()); lemma_words_differ("cbnz", "mrc"); }
    }
}

proof fn lemma_arm_word_mcr()
    ensures
        crate::instruction::spec_categorize_arm("mcr".spec_bytes()) == Category::System,
{
    reveal_strlit("mcr");
    assert(ARM_SYSTEM@[3] == "mcr");
    assert forall|k: int| 0 <= k < 14 implies #[trigger] ARM_MOV@[k].spec_bytes() != "mcr".spec_bytes() by {
        if k == 0 { assert(ARM_MOV@[0] == "mov"); reveal_strlit("mov"); assert("mov"@[1] != "mcr"@[1]); lemma_words_differ("mov", "mcr"); }
        if k == 1 { assert(ARM_MOV@[1] == "movw"); reveal_strlit("movw"); assert("movw"@.len() != "mcr"@.len()); lemma_words_differ("movw", "mcr"); }
        if k == 2 { assert(ARM_MOV@[2] == "movt"); reveal_strlit("movt"); assert("movt"@.len() != "mcr"@.len()); lemma_words_differ("movt", "mcr"); }
        if k == 3 { assert(ARM_MOV@[3] == "mvn"); reveal_strlit("mvn"); assert("mvn"@[1] != "mcr"@[1]); lemma_words_differ("mvn", "mcr"); }
        if k == 4 { assert(ARM_MOV@[4] == "ldr"); reveal_strlit("ldr"); assert("ldr"@[0] != "mcr"@[0]); lemma_words_differ("ldr", "mcr"); }
        if k == 5 { assert(ARM_MOV@[5] == "str"); reveal_strlit("str"); assert("str"@[0] != "mcr"@[0]); lemma_words_differ("str", "mcr"); }
        if k == 6 { assert(ARM_MOV@[6] == "ldm"); reveal_strlit("ldm"); assert("ldm"@[0] != "mcr"@[0]); lemma_words_differ("ldm", "mcr"); }
        if k == 7 { assert(ARM_MOV@[7] == "stm"); reveal_strlit("stm"); assert("stm"@[0] != "mcr"@[0]); lemma_words_differ("stm", "mcr"); }
        if k == 8 { assert(ARM_MOV@[8] == "push"); reveal_strlit("push"); assert("push"@.len() != "mcr"@.len()); lemma_words_differ("push", "mcr"); }
        if k == 9 { assert(ARM_MOV@[9] == "pop"); reveal_strlit("pop"); assert("pop"@[0] != "mcr"@[0]); lemma_words_differ("pop", "mcr"); }
        if k == 10 { assert(ARM_MOV@[10] == "ldrb"); reveal_strlit("ldrb"); assert("ldrb"@.len() != "mcr"@.len()); lemma_words_differ("ldrb", "mcr"); }
        if k == 11 { assert(ARM_MOV@[11] == "strb"); reveal_strlit("strb"); assert("strb"@.len() != "mcr"@.len()); lemma_words_differ("strb", "mcr"); }
        if k == 12 { assert(ARM_MOV@[12] == "ldrh"); reveal_strlit("ldrh"); assert("ldrh"@.len() != "mcr"@.len()); lemma_words_differ("ldrh", "mcr"); }
        if k == 13 { assert(ARM_MOV@[13] == "strh"); reveal_strlit("strh"); assert("strh"@.len() != "mcr"@.len()); lemma_words_differ("strh", "mcr"); }
    }
    assert forall|k: int| 0 <= k < 9 implies #[trigger] ARM_ARITHMETIC@[k].spec_bytes() != "mcr".spec_bytes() by {
        if k == 0 { assert(ARM_ARITHMETIC@[0] == "add"); reveal_strlit("add"); assert("add"@[0] != "mcr"@[0]); lemma_words_differ("add", "mcr"); }
        if k == 1 { assert(ARM_ARITHMETIC@[1] == "sub"); reveal_strlit("sub"); assert("sub"@[0] != "mcr"@[0]); lemma_words_differ("sub", "mcr"); }
        if k == 2 { assert(ARM_ARITHMETIC@[2] == "mul"); reveal_strlit("mul"); assert("mul"@[1] != "mcr"@[1]); lemma_words_differ("mul", "mcr"); }
        if k == 3 { assert(ARM_ARITHMETIC@[3] == "mla"); reveal_strlit("mla"); assert("mla"@[1] != "mcr"@[1]); lemma_words_differ("mla", "mcr"); }
        if k == 4 { assert(ARM_ARITHMETIC@[4] == "sdiv"); reveal_strlit("sdiv"); assert("sdiv"@.len() != "mcr"@.len()); lemma_words_differ("sdiv", "mcr"); }
        if k == 5 { assert(ARM_ARITHMETIC@[5] == "udiv"); reveal_strlit("udiv"); assert("udiv"@.len() != "mcr"@.len()); lemma_words_differ("udiv", "mcr"); }
        if k == 6 { assert(ARM_ARITHMETIC@[6] == "adc"); reveal_strlit("adc"); assert("adc"@[0] != "mcr"@[0]); lemma_words_differ("adc", "mcr"); }
        if k == 7 { assert(ARM_ARITHMETIC@[7] == "sbc"); reveal_strlit("sbc"); assert("sbc"@[0] != "mcr"@[0]); lemma_words_differ("sbc", "mcr"); }
        if k == 8 { assert(ARM_ARITHMETIC@[8] == "rsb"); reveal_strlit("rsb"); assert("rsb"@[0] != "mcr"@[0]); lemma_words_differ("rsb", "mcr"); }
    }
    assert forall|k: int| 0 <= k < 8 implies #[trigger] ARM_LOGIC@[k].spec_bytes() != "mcr".spec_bytes() by {
        if k == 0 { assert(ARM_LOGIC@[0] == "and"); reveal_strlit("and"); assert("and"@[0] != "mcr"@[0]); lemma_words_differ("and", "mcr"); }
        if k == 1 { assert(ARM_LOGIC@[1] == "orr"); reveal_strlit("orr"); assert("orr"@[0] != "mcr"@[0]); lemma_words_differ("orr", "mcr"); }
        if k == 2 { assert(ARM_LOGIC@[2] == "eor"); reveal_strlit("eor"); assert("eor"@[0] != "mcr"@[0]); lemma_words_differ("eor", "mcr"); }
        if k == 3 { assert(ARM_LOGIC@[3] == "bic"); reveal_strlit("bic"); assert("bic"@[0] != "mcr"@[0]); lemma_words_differ("bic", "mcr"); }
        if k == 4 { assert(ARM_LOGIC@[4] == "lsl"); reveal_strlit("lsl"); assert("lsl"@[0] != "mcr"@[0]); lemma_words_differ("lsl", "mcr"); }
        if k == 5 { assert(ARM_LOGIC@[5] == "lsr"); reveal_strlit("lsr"); assert("lsr"@[0] != "mcr"@[0]); lemma_words_differ("lsr", "mcr"); }
        if k == 6 { assert(ARM_LOGIC@[6] == "asr"); reveal_strlit("asr"); assert("asr"@[0] != "mcr"@[0]); lemma_words_differ("asr", "mcr"); }
        if k == 7 { assert(ARM_LOGIC@[7] == "ror"); reveal_strlit("ror"); assert("ror"@[0] != "mcr"@[0]); lemma_words_differ("ror", "mcr"); }
    }
    assert forall|k: int| 0 <= k < 6 implies #[trigger] ARM_CONTROL@[k].spec_bytes() != "mcr".spec_bytes() by {
        if k == 0 { assert(ARM_CONTROL@[0] == "b"); reveal_strlit("b"); assert("b"@.len() != "mcr"@.len()); lemma_words_differ("b", "mcr"); }
        if k == 1 { assert(ARM_CONTROL@[1] == "bl"); reveal_strlit("bl"); assert("bl"@.len() != "mcr"@.len()); lemma_words_differ("bl", "mcr"); }
        if k == 2 { assert(ARM_CONTROL@[2] == "bx"); reveal_strlit("bx"); assert("bx"@.len() != "mcr"@.len()); lemma_words_differ("bx", "mcr"); }
        if k == 3 { assert(ARM_CONTROL@[3] == "blx"); reveal_strlit("blx"); assert("blx"@[0] != "mcr"@[0]); lemma_words_differ("blx", "mcr"); }
        if k == 4 { assert(ARM_CONTROL@[4] == "cbz"); reveal_strlit("cbz"); assert("cbz"@[0] != "mcr"@[0]); lemma_words_differ("cbz", "mcr"); }
        if k == 5 { assert(ARM_CONTROL@[5] == "cbnz"); reveal_strlit("cbnz"); assert("cbnz"@.len() != "mcr"@.len()); lemma_words_differ("cbnz", "mcr"); }
    }
}

proof fn lemma_arm_system_words(m: Seq<u8>)
    requires
        m == "svc".spec_bytes() || m == "swi".spec_bytes() || m == "mrc".spec_bytes() || m == "mcr".spec_bytes(),
    ensures
        crate::instruction::spec_categorize_arm(m) == Category::System,
        crate::instruction::spec_categorize(m, ArchKind::Arm) == Category::System,
        crate::instruction::listing_counts(seq![Some(m)], ArchKind::Arm) == (1int, 0int, 0int, 0int, 0int, 1int),
{
    if m == "svc".spec_bytes() {
        lemma_arm_word_svc();
        reveal_strlit("svc");
        lemma_lower_fixed("svc");
    }
    if m == "swi".spec_bytes() {
        lemma_arm_word_swi();
        reveal_strlit("swi");
        lemma_lower_fixed("swi");
    }
    if m == "mrc".spec_bytes() {
        lemma_arm_word_mrc();
        reveal_strlit("mrc");
        lemma_lower_fixed("mrc");
    }
    if m == "mcr".spec_bytes() {
        lemma_arm_word_mcr();
        reveal_strlit("mcr");
        lemma_lower_fixed("mcr");
    }
    assert(seq![Some(m)].drop_last() =~= Seq::<Option<Seq<u8>>>::empty());
    assert(seq![Some(m)].last() == Some(m));
    assert(crate::instruction::listing_counts(Seq::<Option<Seq<u8>>>::empty(), ArchKind::Arm) == (0int, 0int, 0int, 0int, 0int, 0int));
}

proof fn lemma_arm_other_words(m: Seq<u8>)
    requires
        !(m == "adc".spec_bytes() || m == "add".spec_bytes() || m == "and".spec_bytes() || m == "asr".spec_bytes() || m == "b".spec_bytes() || m == "bic".spec_bytes() || m == "bl".spec_bytes() || m == "blx".spec_bytes() || m == "bx".spec_bytes() || m == "cbnz".spec_bytes() || m == "cbz".spec_bytes() || m == "eor".spec_bytes() || m == "ldm".spec_bytes() || m == "ldr".spec_bytes() || m == "ldrb".spec_bytes() || m == "ldrh".spec_bytes() || m == "lsl".spec_bytes() || m == "lsr".spec_bytes() || m == "mcr".spec_bytes() || m == "mla".spec_bytes() || m == "mov".spec_bytes() || m == "movt".spec_bytes() || m == "movw".spec_bytes() || m == "mrc".spec_bytes() || m == "mul".spec_bytes() || m == "mvn".spec_bytes() || m == "orr".spec_bytes() || m == "pop".spec_bytes() || m == "push".spec_bytes() || m == "ror".spec_bytes() || m == "rsb".spec_bytes() || m == "sbc".spec_bytes() || m == "sdiv".spec_bytes() || m == "stm".spec_bytes() || m == "str".spec_bytes() || m == "strb".spec_bytes() || m == "strh".spec_bytes() || m == "sub".spec_bytes() || m == "svc".spec_bytes() || m == "swi".spec_bytes() || m == "udiv".spec_bytes()),
    ensures
        crate::instruction::spec_categorize_arm(m) == Category::Other,
{
    assert(!crate::instruction::listed(m, ARM_MOV@)) by {
        if crate::instruction::listed(m, ARM_MOV@) {
            let k = choose|k: int| 0 <= k < 14 && #[trigger] ARM_MOV@[k].spec_bytes() == m;
            if k == 0 { assert(ARM_MOV@[0] == "mov"); }
            if k == 1 { assert(ARM_MOV@[1] == "movw"); }
            if k == 2 { assert(ARM_MOV@[2] == "movt"); }
            if k == 3 { assert(ARM_MOV@[3] == "mvn"); }
            if k == 4 { assert(ARM_MOV@[4] == "ldr"); }
            if k == 5 { assert(ARM_MOV@[5] == "str"); }
            if k == 6 { assert(ARM_MOV@[6] == "ldm"); }
            if k == 7 { assert(ARM_MOV@[7] == "stm"); }
            if k == 8 { assert(ARM_MOV@[8] == "push"); }
            if k == 9 { assert(ARM_MOV@[9] == "pop"); }
            if k == 10 { assert(ARM_MOV@[10] == "ldrb"); }
            if k == 11 { assert(ARM_MOV@[11] == "strb"); }
            if k == 12 { assert(ARM_MOV@[12] == "ldrh"); }
            if k == 13 { assert(ARM_MOV@[13] == "strh"); }
        }
    }
    assert(!crate::instruction::listed(m, ARM_ARITHMETIC@)) by {
        if crate::instruction::listed(m, ARM_ARITHMETIC@) {
            let k = choose|k: int| 0 <= k < 9 && #[trigger] ARM_ARITHMETIC@[k].spec_bytes() == m;
            if k == 0 { assert(ARM_ARITHMETIC@[0] == "add"); }
            if k == 1 { assert(ARM_ARITHMETIC@[1] == "sub"); }
            if k == 2 { assert(ARM_ARITHMETIC@[2] == "mul"); }
            if k == 3 { assert(ARM_ARITHMETIC@[3] == "mla"); }
            if k == 4 { assert(ARM_ARITHMETIC@[4] == "sdiv"); }
            if k == 5 { assert(ARM_ARITHMETIC@[5] == "udiv"); }
            if k == 6 { assert(ARM_ARITHMETIC@[6] == "adc"); }
            if k == 7 { assert(ARM_ARITHMETIC@[7] == "sbc"); }
            if k == 8 { assert(ARM_ARITHMETIC@[8] == "rsb"); }
        }
    }
    assert(!crate::instruction::listed(m, ARM_LOGIC@)) by {
        if crate::instruction::listed(m, ARM_LOGIC@) {
            let k = choose|k: int| 0 <= k < 8 && #[trigger] ARM_LOGIC@[k].spec_bytes() == m;
            if k == 0 { assert(ARM_LOGIC@[0] == "and"); }
            if k == 1 { assert(ARM_LOGIC@[1] == "orr"); }
            if k == 2 { assert(ARM_LOGIC@[2] == "eor"); }
            if k == 3 { assert(ARM_LOGIC@[3] == "bic"); }
            if k == 4 { assert(ARM_LOGIC@[4] == "lsl"); }
            if k == 5 { assert(ARM_LOGIC@[5] == "lsr"); }
            if k == 6 { assert(ARM_LOGIC@[6] == "asr"); }
            if k == 7 { assert(ARM_LOGIC@[7] == "ror"); }
        }
    }
    assert(!crate::instruction::listed(m, ARM_CONTROL@)) by {
        if crate::instruction::listed(m, ARM_CONTROL@) {
            let k = choose|k: int| 0 <= k < 6 && #[trigger] ARM_CONTROL@[k].spec_bytes() == m;
            if k == 0 { assert(ARM_CONTROL@[0] == "b"); }
            if k == 1 { assert(ARM_CONTROL@[1] == "bl"); }
            if k == 2 { assert(ARM_CONTROL@[2] == "bx"); }
            if k == 3 { assert(ARM_CONTROL@[3] == "blx"); }
            if k == 4 { assert(ARM_CONTROL@[4] == "cbz"); }
            if k == 5 { assert(ARM_CONTROL@[5] == "cbnz"); }
        }
    }
    assert(!crate::instruction::listed(m, ARM_SYSTEM@)) by {
        if crate::instruction::listed(m, ARM_SYSTEM@) {
            let k = choose|k: int| 0 <= k < 4 && #[trigger] ARM_SYSTEM@[k].spec_bytes() == m;
            if k == 0 { assert(ARM_SYSTEM@[0] == "svc"); }
            if k == 1 { assert(ARM_SYSTEM@[1] == "swi"); }
            if k == 2 { assert(ARM_SYSTEM@[2] == "mrc"); }
            if k == 3 { assert(ARM_SYSTEM@[3] == "mcr"); }
        }
    }
}

/// On 32-bit ARM the instruction families are exactly these mnemonics (control flow:
/// `b`, `bl`, `bx`, `blx`, `cbz`, `cbnz`); every other mnemonic is `Other`. A listing of
/// one lower-case mnemonic is counted once, in its family.
pub proof fn lemma_arm_instruction_families(m: Seq<u8>)
    ensures
        m == "mov".spec_bytes() || m == "movw".spec_bytes() || m == "movt".spec_bytes() || m == "mvn".spec_bytes() || m == "ldr".spec_bytes() || m == "str".spec_bytes() || m == "ldm".spec_bytes() || m == "stm".spec_bytes() || m == "push".spec_bytes() || m == "pop".spec_bytes() || m == "ldrb".spec_bytes() || m == "strb".spec_bytes() || m == "ldrh".spec_bytes() || m == "strh".spec_bytes()
            ==> crate::instruction::spec_categorize(m, ArchKind::Arm) == Category::Mov
                && crate::instruction::listing_counts(seq![Some(m)], ArchKind::Arm) == (1int, 1int, 0int, 0int, 0int, 0int),
        m == "add".spec_bytes() || m == "sub".spec_bytes() || m == "mul".spec_bytes() || m == "mla".spec_bytes() || m == "sdiv".spec_bytes() || m == "udiv".spec_bytes() || m == "adc".spec_bytes() || m == "sbc".spec_bytes() || m == "rsb".spec_bytes()
            ==> crate::instruction::spec_categorize(m, ArchKind::Arm) == Category::Arithmetic
                && crate::instruction::listing_counts(seq![Some(m)], ArchKind::Arm) == (1int, 0int, 1int, 0int, 0int, 0int),
        m == "and".spec_bytes() || m == "orr".spec_bytes() || m == "eor".spec_bytes() || m == "bic".spec_bytes() || m == "lsl".spec_bytes() || m == "lsr".spec_bytes() || m == "asr".spec_bytes() || m == "ror".spec_bytes()
            ==> crate::instruction::spec_categorize(m, ArchKind::Arm) == Category::Logic
                && crate::instruction::listing_counts(seq![Some(m)], ArchKind::Arm) == (1int, 0int, 0int, 1int, 0int, 0int),
        m == "b".spec_bytes() || m == "bl".spec_bytes() || m == "bx".spec_bytes() || m == "blx".spec_bytes() || m == "cbz".spec_bytes() || m == "cbnz".spec_bytes()
            ==> crate::instruction::spec_categorize(m, ArchKind::Arm) == Category::ControlFlow
                && crate::instruction::listing_counts(seq![Some(m)], ArchKind::Arm) == (1int, 0int, 0int, 0int, 1int, 0int),
        m == "svc".spec_bytes() || m == "swi".spec_bytes() || m == "mrc".spec_bytes() || m == "mcr".spec_bytes()
            ==> crate::instruction::spec_categorize(m, ArchKind::Arm) == Category::System
                && crate::instruction::listing_counts(seq![Some(m)], ArchKind::Arm) == (1int, 0int, 0int, 0int, 0int, 1int),
        !(m == "adc".spec_bytes() || m == "add".spec_bytes() || m == "and".spec_bytes() || m == "asr".spec_bytes() || m == "b".spec_bytes() || m == "bic".spec_bytes() || m == "bl".spec_bytes() || m == "blx".spec_bytes() || m == "bx".spec_bytes() || m == "cbnz".spec_bytes() || m == "cbz".spec_bytes() || m == "eor".spec_bytes() || m == "ldm".spec_bytes() || m == "ldr".spec_bytes() || m == "ldrb".spec_bytes() || m == "ldrh".spec_bytes() || m == "lsl".spec_bytes() || m == "lsr".spec_bytes() || m == "mcr".spec_bytes() || m == "mla".spec_bytes() || m == "mov".spec_bytes() || m == "movt".spec_bytes() || m == "movw".spec_bytes() || m == "mrc".spec_bytes() || m == "mul".spec_bytes() || m == "mvn".spec_bytes() || m == "orr".spec_bytes() || m == "pop".spec_bytes() || m == "push".spec_bytes() || m == "ror".spec_bytes() || m == "rsb".spec_bytes() || m == "sbc".spec_bytes() || m == "sdiv".spec_bytes() || m == "stm".spec_bytes() || m == "str".spec_bytes() || m == "strb".spec_bytes() || m == "strh".spec_bytes() || m == "sub".spec_bytes() || m == "svc".spec_bytes() || m == "swi".spec_bytes() || m == "udiv".spec_bytes())
            ==> crate::instruction::spec_categorize(m, ArchKind::Arm) == Category::Other,
{
    if m == "mov".spec_bytes() || m == "movw".spec_bytes() || m == "movt".spec_bytes() || m == "mvn".spec_bytes() || m == "ldr".spec_bytes() || m == "str".spec_bytes() || m == "ldm".spec_bytes() || m == "stm".spec_bytes() || m == "push".spec_bytes() || m == "pop".spec_bytes() || m == "ldrb".spec_bytes() || m == "strb".spec_bytes() || m == "ldrh".spec_bytes() || m == "strh".spec_bytes() {
        lemma_arm_mov_words(m);
    }
    if m == "add".spec_bytes() || m == "sub".spec_bytes() || m == "mul".spec_bytes() || m == "mla".spec_bytes() || m == "sdiv".spec_bytes() || m == "udiv".spec_bytes() || m == "adc".spec_bytes() || m == "sbc".spec_bytes() || m == "rsb".spec_bytes() {
        lemma_arm_arithmetic_words(m);
    }
    if m == "and".spec_bytes() || m == "orr".spec_bytes() || m == "eor".spec_bytes() || m == "bic".spec_bytes() || m == "lsl".spec_bytes() || m == "lsr".spec_bytes() || m == "asr".spec_bytes() || m == "ror".spec_bytes() {
        lemma_arm_logic_words(m);
    }
    if m == "b".spec_bytes() || m == "bl".spec_bytes() || m == "bx".spec_bytes() || m == "blx".spec_bytes() || m == "cbz".spec_bytes() || m == "cbnz".spec_bytes() {
        lemma_arm_controlflow_words(m);
    }
    if m == "svc".spec_bytes() || m == "swi".spec_bytes() || m == "mrc".spec_bytes() || m == "mcr".spec_bytes() {
        lemma_arm_system_words(m);
    }
    if !(m == "adc".spec_bytes() || m == "add".spec_bytes() || m == "and".spec_bytes() || m == "asr".spec_bytes() || m == "b".spec_bytes() || m == "bic".spec_bytes() || m == "bl".spec_bytes() || m == "blx".spec_bytes() || m == "bx".spec_bytes() || m == "cbnz".spec_bytes() || m == "cbz".spec_bytes() || m == "eor".spec_bytes() || m == "ldm".spec_bytes() || m == "ldr".spec_bytes() || m == "ldrb".spec_bytes() || m == "ldrh".spec_bytes() || m == "lsl".spec_bytes() || m == "lsr".spec_bytes() || m == "mcr".spec_bytes() || m == "mla".spec_bytes() || m == "mov".spec_bytes() || m == "movt".spec_bytes() || m == "movw".spec_bytes() || m == "mrc".spec_bytes() || m == "mul".spec_bytes() || m == "mvn".spec_bytes() || m == "orr".spec_bytes() || m == "pop".spec_bytes() || m == "push".spec_bytes() || m == "ror".spec_bytes() || m == "rsb".spec_bytes() || m == "sbc".spec_bytes() || m == "sdiv".spec_bytes() || m == "stm".spec_bytes() || m == "str".spec_bytes() || m == "strb".spec_bytes() || m == "strh".spec_bytes() || m == "sub".spec_bytes() || m == "svc".spec_bytes() || m == "swi".spec_bytes() || m == "udiv".spec_bytes()) {
        lemma_arm_other_words(m);
    }
}

proof fn lemma_x86_word_mov()
    ensures
        crate::instruction::spec_categorize_x86("mov".spec_bytes()) == Category::Mov,
{
    reveal_strlit("mov");
    assert(X86_MOV@[0] == "mov");
}

proof fn lemma_x86_word_movzx()
    ensures
        crate::instruction::spec_categorize_x86("movzx".spec_bytes()) == Category::Mov,
{
    reveal_strlit("movzx");
    assert(X86_MOV@[1] == "movzx");
}

proof fn lemma_x86_word_movsx()
    ensures
        crate::instruction::spec_categorize_x86("movsx".spec_bytes()) == Category::Mov,
{
    reveal_strlit("movsx");
    assert(X86_MOV@[2] == "movsx");
}

proof fn lemma_x86_word_lea()
    ensures
        crate::instruction::spec_categorize_x86("lea".spec_bytes()) == Category::Mov,
{
    reveal_strlit("lea");
    assert(X86_MOV@[3] == "lea");
}

proof fn lemma_x86_word_push()
    ensures
        crate::instruction::spec_categorize_x86("push".spec_bytes()) == Category::Mov,
{
    reveal_strlit("push");
    assert(X86_MOV@[4] == "push");
}

proof fn lemma_x86_word_pop()
    ensures
        crate::instruction::spec_categorize_x86("pop".spec_bytes()) == Category::Mov,
{
    reveal_strlit("pop");
    assert(X86_MOV@[5] == "pop");
}

proof fn lemma_x86_mov_words(m: Seq<u8>)
    requires
        m == "mov".spec_bytes() || m == "movzx".spec_bytes() || m == "movsx".spec_bytes() || m == "lea".spec_bytes() || m == "push".spec_bytes() || m == "pop".spec_bytes(),
    ensures
        crate::instruction::spec_categorize_x86(m) == Category::Mov,
        crate::instruction::spec_categorize(m, ArchKind::X86) == Category::Mov,
        crate::instruction::listing_counts(seq![Some(m)], ArchKind::X86) == (1int, 1int, 0int, 0int, 0int, 0int),
        crate::instruction::spec_categorize(m, ArchKind::X86_64) == Category::Mov,
        crate::instruction::listing_counts(seq![Some(m)], ArchKind::X86_64) == (1int, 1int, 0int, 0int, 0int, 0int),
{
    if m == "mov".spec_bytes() {
        lemma_x86_word_mov();
        reveal_strlit("mov");
        lemma_lower_fixed("mov");
    }
    if m == "movzx".spec_bytes() {
        lemma_x86_word_movzx();
        reveal_strlit("movzx");
        lemma_lower_fixed("movzx");
    }
    if m == "movsx".spec_bytes() {
        lemma_x86_word_movsx();
        reveal_strlit("movsx");
        lemma_lower_fixed("movsx");
    }
    if m == "lea".spec_bytes() {
        lemma_x86_word_lea();
        reveal_strlit("lea");
        lemma_lower_fixed("lea");
    }
    if m == "push".spec_bytes() {
        lemma_x86_word_push();
        reveal_strlit("push");
        lemma_lower_fixed("push");
    }
    if m == "pop".spec_bytes() {
        lemma_x86_word_pop();
        reveal_strlit("pop");
        lemma_lower_fixed("pop");
    }
    assert(seq![Some(m)].drop_last() =~= Seq::<Option<Seq<u8>>>::empty());
    assert(seq![Some(m)].last() == Some(m));
    assert(crate::instruction::listing_counts(Seq::<Option<Seq<u8>>>::empty(), ArchKind::X86) == (0int, 0int, 0int, 0int, 0int, 0int));
    assert(crate::instruction::listing_counts(Seq::<Option<Seq<u8>>>::empty(), ArchKind::X86_64) == (0int, 0int, 0int, 0int, 0int, 0int));
}

proof fn lemma_x86_word_add()
    ensures
        crate::instruction::spec_categorize_x86("add".spec_bytes()) == Category::Arithmetic,
{
    reveal_strlit("add");
    assert(X86_ARITHMETIC@[0] == "add");
    assert forall|k: int| 0 <= k < 6 implies #[trigger] X86_MOV@[k].spec_bytes() != "add".spec_bytes() by {
        if k == 0 { assert(X86_MOV@[0] == "mov"); reveal_strlit("mov"); assert("mov"@[0] != "add"@[0]); lemma_words_differ("mov", "add"); }
        if k == 1 { assert(X86_MOV@[1] == "movzx"); reveal_strlit("movzx"); assert("movzx"@.len() != "add"@.len()); lemma_words_differ("movzx", "add"); }
        if k == 2 { assert(X86_MOV@[2] == "movsx"); reveal_strlit("movsx"); assert("movsx"@.len() != "add"@.len()); lemma_words_differ("movsx", "add"); }
        if k == 3 { assert(X86_MOV@[3] == "lea"); reveal_strlit("lea"); assert("lea"@[0] != "add"@[0]); lemma_words_differ("lea", "add"); }
        if k == 4 { assert(X86_MOV@[4] == "push"); reveal_strlit("push"); assert("push"@.len() != "add"@.len()); lemma_words_differ("push", "add"); }
        if k == 5 { assert(X86_MOV@[5] == "pop"); reveal_strlit("pop"); assert("pop"@[0] != "add"@[0]); lemma_words_differ("pop", "add"); }
    }
}

proof fn lemma_x86_word_sub()
    ensures
        crate::instruction::spec_categorize_x86("sub".spec_bytes()) == Category::Arithmetic,
{
    reveal_strlit("sub");
    assert(X86_ARITHMETIC@[1] == "sub");
    assert forall|k: int| 0 <= k < 6 implies #[trigger] X86_MOV@[k].spec_bytes() != "sub".spec_bytes() by {
        if k == 0 { assert(X86_MOV@[0] == "mov"); reveal_strlit("mov"); assert("mov"@[0] != "sub"@[0]); lemma_words_differ("mov", "sub"); }
        if k == 1 { assert(X86_MOV@[1] == "movzx"); reveal_strlit("movzx"); assert("movzx"@.len() != "sub"@.len()); lemma_words_differ("movzx", "sub"); }
        if k == 2 { assert(X86_MOV@[2] == "movsx"); reveal_strlit("movsx"); assert("movsx"@.len() != "sub"@.len()); lemma_words_differ("movsx", "sub"); }
        if k == 3 { assert(X86_MOV@[3] == "lea"); reveal_strlit("lea"); assert("lea"@[0] != "sub"@[0]); lemma_words_differ("lea", "sub"); }
        if k == 4 { assert(X86_MOV@[4] == "push"); reveal_strlit("push"); assert("push"@.len() != "sub"@.len()); lemma_words_differ("push", "sub"); }
        if k == 5 { assert(X86_MOV@[5] == "pop"); reveal_strlit("pop"); assert("pop"@[0] != "sub"@[0]); lemma_words_differ("pop", "sub"); }
    }
}

proof fn lemma_x86_word_mul()
    ensures
        crate::instruction::spec_categorize_x86("mul".spec_bytes()) == Category::Arithmetic,
{
    reveal_strlit("mul");
    assert(X86_ARITHMETIC@[2] == "mul");
    assert forall|k: int| 0 <= k < 6 implies #[trigger] X86_MOV@[k].spec_bytes() != "mul".spec_bytes() by {
        if k == 0 { assert(X86_MOV@[0] == "mov"); reveal_strlit("mov"); assert("mov"@[1] != "mul"@[1]); lemma_words_differ("mov", "mul"); }
        if k == 1 { assert(X86_MOV@[1] == "movzx"); reveal_strlit("movzx"); assert("movzx"@.len() != "mul"@.len()); lemma_words_differ("movzx", "mul"); }
        if k == 2 { assert(X86_MOV@[2] == "movsx"); reveal_strlit("movsx"); assert("movsx"@.len() != "mul"@.len()); lemma_words_differ("movsx", "mul"); }
        if k == 3 { assert(X86_MOV@[3] == "lea"); reveal_strlit("lea"); assert("lea"@[0] != "mul"@[0]); lemma_words_differ("lea", "mul"); }
        if k == 4 { assert(X86_MOV@[4] == "push"); reveal_strlit("push"); assert("push"@.len() != "mul"@.len()); lemma_words_differ("push", "mul"); }
        if k == 5 { assert(X86_MOV@[5] == "pop"); reveal_strlit("pop"); assert("pop"@[0] != "mul"@[0]); lemma_words_differ("pop", "mul"); }
    }
}

proof fn lemma_x86_word_imul()
    ensures
        crate::instruction::spec_categorize_x86("imul".spec_bytes()) == Category::Arithmetic,
{
    reveal_strlit("imul");
    assert(X86_ARITHMETIC@[3] == "imul");
    assert forall|k: int| 0 <= k < 6 implies #[trigger] X86_MOV@[k].spec_bytes() != "imul".spec_bytes() by {
        if k == 0 { assert(X86_MOV@[0] == "mov"); reveal_strlit("mov"); assert("mov"@.len() != "imul"@.len()); lemma_words_differ("mov", "imul"); }
        if k == 1 { assert(X86_MOV@[1] == "movzx"); reveal_strlit("movzx"); assert("movzx"@.len() != "imul"@.len()); lemma_words_differ("movzx", "imul"); }
        if k == 2 { assert(X86_MOV@[2] == "movsx"); reveal_strlit("movsx"); assert("movsx"@.len() != "imul"@.len()); lemma_words_differ("movsx", "imul"); }
        if k == 3 { assert(X86_MOV@[3] == "lea"); reveal_strlit("lea"); assert("lea"@.len() != "imul"@.len()); lemma_words_differ("lea", "imul"); }
        if k == 4 { assert(X86_MOV@[4] == "push"); reveal_strlit("push"); assert("push"@[0] != "imul"@[0]); lemma_words_differ("push", "imul"); }
        if k == 5 { assert(X86_MOV@[5] == "pop"); reveal_strlit("pop"); assert("pop"@.len() != "imul"@.len()); lemma_words_differ("pop", "imul"); }
    }
}

proof fn lemma_x86_word_div()
    ensures
        crate::instruction::spec_categorize_x86("div".spec_bytes()) == Category::Arithmetic,
{
    reveal_strlit("div");
    assert(X86_ARITHMETIC@[4] == "div");
    assert forall|k: int| 0 <= k < 6 implies #[trigger] X86_MOV@[k].spec_bytes() != "div".spec_bytes() by {
        if k == 0 { assert(X86_MOV@[0] == "mov"); reveal_strlit("mov"); assert("mov"@[0] != "div"@[0]); lemma_words_differ("mov", "div"); }
        if k == 1 { assert(X86_MOV@[1] == "movzx"); reveal_strlit("movzx"); assert("movzx"@.len() != "div"@.len()); lemma_words_differ("movzx", "div"); }
        if k == 2 { assert(X86_MOV@[2] == "movsx"); reveal_strlit("movsx"); assert("movsx"@.len() != "div"@.len()); lemma_words_differ("movsx", "div"); }
        if k == 3 { assert(X86_MOV@[3] == "lea"); reveal_strlit("lea"); assert("lea"@[0] != "div"@[0]); lemma_words_differ("lea", "div"); }
        if k == 4 { assert(X86_MOV@[4] == "push"); reveal_strlit("push"); assert("push"@.len() != "div"@.len()); lemma_words_differ("push", "div"); }
        if k == 5 { assert(X86_MOV@[5] == "pop"); reveal_strlit("pop"); assert("pop"@[0] != "div"@[0]); lemma_words_differ("pop", "div"); }
    }
}

proof fn lemma_x86_word_idiv()
    ensures
        crate::instruction::spec_categorize_x86("idiv".spec_bytes()) == Category::Arithmetic,
{
    reveal_strlit("idiv");
    assert(X86_ARITHMETIC@[5] == "idiv");
    assert forall|k: int| 0 <= k < 6 implies #[trigger] X86_MOV@[k].spec_bytes() != "idiv".spec_bytes() by {
        if k == 0 { assert(X86_MOV@[0] == "mov"); reveal_strlit("mov"); assert("mov"@.len() != "idiv"@.len()); lemma_words_differ("mov", "idiv"); }
        if k == 1 { assert(X86_MOV@[1] == "movzx"); reveal_strlit("movzx"); assert("movzx"@.len() != "idiv"@.len()); lemma_words_differ("movzx", "idiv"); }
        if k == 2 { assert(X86_MOV@[2] == "movsx"); reveal_strlit("movsx"); assert("movsx"@.len() != "idiv"@.len()); lemma_words_differ("movsx", "idiv"); }
        if k == 3 { assert(X86_MOV@[3] == "lea"); reveal_strlit("lea"); assert("lea"@.len() != "idiv"@.len()); lemma_words_differ("lea", "idiv"); }
        if k == 4 { assert(X86_MOV@[4] == "push"); reveal_strlit("push"); assert("push"@[0] != "idiv"@[0]); lemma_words_differ("push", "idiv"); }
        if k == 5 { assert(X86_MOV@[5] == "pop"); reveal_strlit("pop"); assert("pop"@.len() != "idiv"@.len()); lemma_words_differ("pop", "idiv"); }
    }
}

proof fn lemma_x86_word_inc()
    ensures
        crate::instruction::spec_categorize_x86("inc".spec_bytes()) == Category::Arithmetic,
{
    reveal_strlit("inc");
    assert(X86_ARITHMETIC@[6] == "inc");
    assert forall|k: int| 0 <= k < 6 implies #[trigger] X86_MOV@[k].spec_bytes() != "inc".spec_bytes() by {
        if k == 0 { assert(X86_MOV@[0] == "mov"); reveal_strlit("mov"); assert("mov"@[0] != "inc"@[0]); lemma_words_differ("mov", "inc"); }
        if k == 1 { assert(X86_MOV@[1] == "movzx"); reveal_strlit("movzx"); assert("movzx"@.len() != "inc"@.len()); lemma_words_differ("movzx", "inc"); }
        if k == 2 { assert(X86_MOV@[2] == "movsx"); reveal_strlit("movsx"); assert("movsx"@.len() != "inc"@.len()); lemma_words_differ("movsx", "inc"); }
        if k == 3 { assert(X86_MOV@[3] == "lea"); reveal_strlit("lea"); assert("lea"@[0] != "inc"@[0]); lemma_words_differ("lea", "inc"); }
        if k == 4 { assert(X86_MOV@[4] == "push"); reveal_strlit("push"); assert("push"@.len() != "inc"@.len()); lemma_words_differ("push", "inc"); }
        if k == 5 { assert(X86_MOV@[5] == "pop"); reveal_strlit("pop"); assert("pop"@[0] != "inc"@[0]); lemma_words_differ("pop", "inc"); }
    }
}

proof fn lemma_x86_word_dec()
    ensures
        crate::instruction::spec_categorize_x86("dec".spec_bytes()) == Category::Arithmetic,
{
    reveal_strlit("dec");
    assert(X86_ARITHMETIC@[7] == "dec");
    assert forall|k: int| 0 <= k < 6 implies #[trigger] X86_MOV@[k].spec_bytes() != "dec".spec_bytes() by {
        if k == 0 { assert(X86_MOV@[0] == "mov"); reveal_strlit("mov"); assert("mov"@[0] != "dec"@[0]); lemma_words_differ("mov", "dec"); }
        if k == 1 { assert(X86_MOV@[1] == "movzx"); reveal_strlit("movzx"); assert("movzx"@.len() != "dec"@.len()); lemma_words_differ("movzx", "dec"); }
        if k == 2 { assert(X86_MOV@[2] == "movsx"); reveal_strlit("movsx"); assert("movsx"@.len() != "dec"@.len()); lemma_words_differ("movsx", "dec"); }
        if k == 3 { assert(X86_MOV@[3] == "lea"); reveal_strlit("lea"); assert("lea"@[0] != "dec"@[0]); lemma_words_differ("lea", "dec"); }
        if k == 4 { assert(X86_MOV@[4] == "push"); reveal_strlit("push"); assert("push"@.len() != "dec"@.len()); lemma_words_differ("push", "dec"); }
        if k == 5 { assert(X86_MOV@[5] == "pop"); reveal_strlit("pop"); assert("pop"@[0] != "dec"@[0]); lemma_words_differ("pop", "dec"); }
    }
}

proof fn lemma_x86_arithmetic_words(m: Seq<u8>)
    requires
        m == "add".spec_bytes() || m == "sub".spec_bytes() || m == "mul".spec_bytes() || m == "imul".spec_bytes() || m == "div".spec_bytes() || m == "idiv".spec_bytes() || m == "inc".spec_bytes() || m == "dec".spec_bytes(),
    ensures
        crate::instruction::spec_categorize_x86(m) == Category::Arithmetic,
        crate::instruction::spec_categorize(m, ArchKind::X86) == Category::Arithmetic,
        crate::instruction::listing_counts(seq![Some(m)], ArchKind::X86) == (1int, 0int, 1int, 0int, 0int, 0int),
        crate::instruction::spec_categorize(m, ArchKind::X86_64) == Category::Arithmetic,
        crate::instruction::listing_counts(seq![Some(m)], ArchKind::X86_64) == (1int, 0int, 1int, 0int, 0int, 0int),
{
    if m == "add".spec_bytes() {
        lemma_x86_word_add();
        reveal_strlit("add");
        lemma_lower_fixed("add");
    }
    if m == "sub".spec_bytes() {
        lemma_x86_word_sub();
        reveal_strlit("sub");
        lemma_lower_fixed("sub");
    }
    if m == "mul".spec_bytes() {
        lemma_x86_word_mul();
        reveal_strlit("mul");
        lemma_lower_fixed("mul");
    }
    if m == "imul".spec_bytes() {
        lemma_x86_word_imul();
        reveal_strlit("imul");
        lemma_lower_fixed("imul");
    }
    if m == "div".spec_bytes() {
        lemma_x86_word_div();
        reveal_strlit("div");
        lemma_lower_fixed("div");
    }
    if m == "idiv".spec_bytes() {
        lemma_x86_word_idiv();
        reveal_strlit("idiv");
        lemma_lower_fixed("idiv");
    }
    if m == "inc".spec_bytes() {
        lemma_x86_word_inc();
        reveal_strlit("inc");
        lemma_lower_fixed("inc");
    }
    if m == "dec".spec_bytes() {
        lemma_x86_word_dec();
        reveal_strlit("dec");
        lemma_lower_fixed("dec");
    }
    assert(seq![Some(m)].drop_last() =~= Seq::<Option<Seq<u8>>>::empty());
    assert(seq![Some(m)].last() == Some(m));
    assert(crate::instruction::listing_counts(Seq::<Option<Seq<u8>>>::empty(), ArchKind::X86) == (0int, 0int, 0int, 0int, 0int, 0int));
    assert(crate::instruction::listing_counts(Seq::<Option<Seq<u8>>>::empty(), ArchKind::X86_64) == (0int, 0int, 0int, 0int, 0int, 0int));
}

proof fn lemma_x86_word_and()
    ensures
        crate::instruction::spec_categorize_x86("and".spec_bytes()) == Category::Logic,
{
    reveal_strlit("and");
    assert(X86_LOGIC@[0] == "and");
    assert forall|k: int| 0 <= k < 6 implies #[trigger] X86_MOV@[k].spec_bytes() != "and".spec_bytes() by {
        if k == 0 { assert(X86_MOV@[0] == "mov"); reveal_strlit("mov"); assert("mov"@[0] != "and"@[0]); lemma_words_differ("mov", "and"); }
        if k == 1 { assert(X86_MOV@[1] == "movzx"); reveal_strlit("movzx"); assert("movzx"@.len() != "and"@.len()); lemma_words_differ("movzx", "and"); }
        if k == 2 { assert(X86_MOV@[2] == "movsx"); reveal_strlit("movsx"); assert("movsx"@.len() != "and"@.len()); lemma_words_differ("movsx", "and"); }
        if k == 3 { assert(X86_MOV@[3] == "lea"); reveal_strlit("lea"); assert("lea"@[0] != "and"@[0]); lemma_words_differ("lea", "and"); }
        if k == 4 { assert(X86_MOV@[4] == "push"); reveal_strlit("push"); assert("push"@.len() != "and"@.len()); lemma_words_differ("push", "and"); }
        if k == 5 { assert(X86_MOV@[5] == "pop"); reveal_strlit("pop"); assert("pop"@[0] != "and"@[0]); lemma_words_differ("pop", "and"); }
    }
    assert forall|k: int| 0 <= k < 8 implies #[trigger] X86_ARITHMETIC@[k].spec_bytes() != "and".spec_bytes() by {
        if k == 0 { assert(X86_ARITHMETIC@[0] == "add"); reveal_strlit("add"); assert("add"@[1] != "and"@[1]); lemma_words_differ("add", "and"); }
        if k == 1 { assert(X86_ARITHMETIC@[1] == "sub"); reveal_strlit("sub"); assert("sub"@[0] != "and"@[0]); lemma_words_differ("sub", "and"); }
        if k == 2 { assert(X86_ARITHMETIC@[2] == "mul"); reveal_strlit("mul"); assert("mul"@[0] != "and"@[0]); lemma_words_differ("mul", "and"); }
        if k == 3 { assert(X86_ARITHMETIC@[3] == "imul"); reveal_strlit("imul"); assert("imul"@.len() != "and"@.len()); lemma_words_differ("imul", "and"); }
        if k == 4 { assert(X86_ARITHMETIC@[4] == "div"); reveal_strlit("div"); assert("div"@[0] != "and"@[0]); lemma_words_differ("div", "and"); }
        if k == 5 { assert(X86_ARITHMETIC@[5] == "idiv"); reveal_strlit("idiv"); assert("idiv"@.len() != "and"@.len()); lemma_words_differ("idiv", "and"); }
        if k == 6 { assert(X86_ARITHMETIC@[6] == "inc"); reveal_strlit("inc"); assert("inc"@[0] != "and"@[0]); lemma_words_differ("inc", "and"); }
        if k == 7 { assert(X86_ARITHMETIC@[7] == "dec"); reveal_strlit("dec"); assert("dec"@[0] != "and"@[0]); lemma_words_differ("dec", "and"); }
    }
}

proof fn lemma_x86_word_or()
    ensures
        crate::instruction::spec_categorize_x86("or".spec_bytes()) == Category::Logic,
{
    reveal_strlit("or");
    assert(X86_LOGIC@[1] == "or");
    assert forall|k: int| 0 <= k < 6 implies #[trigger] X86_MOV@[k].spec_bytes() != "or".spec_bytes() by {
        if k == 0 { assert(X86_MOV@[0] == "mov"); reveal_strlit("mov"); assert("mov"@.len() != "or"@.len()); lemma_words_differ("mov", "or"); }
        if k == 1 { assert(X86_MOV@[1] == "movzx"); reveal_strlit("movzx"); assert("movzx"@.len() != "or"@.len()); lemma_words_differ("movzx", "or"); }
        if k == 2 { assert(X86_MOV@[2] == "movsx"); reveal_strlit("movsx"); assert("movsx"@.len() != "or"@.len()); lemma_words_differ("movsx", "or"); }
        if k == 3 { assert(X86_MOV@[3] == "lea"); reveal_strlit("lea"); assert("lea"@.len() != "or"@.len()); lemma_words_differ("lea", "or"); }
        if k == 4 { assert(X86_MOV@[4] == "push"); reveal_strlit("push"); assert("push"@.len() != "or"@.len()); lemma_words_differ("push", "or"); }
        if k == 5 { assert(X86_MOV@[5] == "pop"); reveal_strlit("pop"); assert("pop"@.len() != "or"@.len()); lemma_words_differ("pop", "or"); }
    }
    assert forall|k: int| 0 <= k < 8 implies #[trigger] X86_ARITHMETIC@[k].spec_bytes() != "or".spec_bytes() by {
        if k == 0 { assert(X86_ARITHMETIC@[0] == "add"); reveal_strlit("add"); assert("add"@.len() != "or"@.len()); lemma_words_differ("add", "or"); }
        if k == 1 { assert(X86_ARITHMETIC@[1] == "sub"); reveal_strlit("sub"); assert("sub"@.len() != "or"@.len()); lemma_words_differ("sub", "or"); }
        if k == 2 { assert(X86_ARITHMETIC@[2] == "mul"); reveal_strlit("mul"); assert("mul"@.len() != "or"@.len()); lemma_words_differ("mul", "or"); }
        if k == 3 { assert(X86_ARITHMETIC@[3] == "imul"); reveal_strlit("imul"); assert("imul"@.len() != "or"@.len()); lemma_words_differ("imul", "or"); }
        if k == 4 { assert(X86_ARITHMETIC@[4] == "div"); reveal_strlit("div"); assert("div"@.len() != "or"@.len()); lemma_words_differ("div", "or"); }
        if k == 5 { assert(X86_ARITHMETIC@[5] == "idiv"); reveal_strlit("idiv"); assert("idiv"@.len() != "or"@.len()); lemma_words_differ("idiv", "or"); }
        if k == 6 { assert(X86_ARITHMETIC@[6] == "inc"); reveal_strlit("inc"); assert("inc"@.len() != "or"@.len()); lemma_words_differ("inc", "or"); }
        if k == 7 { assert(X86_ARITHMETIC@[7] == "dec"); reveal_strlit("dec"); assert("dec"@.len() != "or"@.len()); lemma_words_differ("dec", "or"); }
    }
}

proof fn lemma_x86_word_xor()
    ensures
        crate::instruction::spec_categorize_x86("xor".spec_bytes()) == Category::Logic,
{
    reveal_strlit("xor");
    assert(X86_LOGIC@[2] == "xor");
    assert forall|k: int| 0 <= k < 6 implies #[trigger] X86_MOV@[k].spec_bytes() != "xor".spec_bytes() by {
        if k == 0 { assert(X86_MOV@[0] == "mov"); reveal_strlit("mov"); assert("mov"@[0] != "xor"@[0]); lemma_words_differ("mov", "xor"); }
        if k == 1 { assert(X86_MOV@[1] == "movzx"); reveal_strlit("movzx"); assert("movzx"@.len() != "xor"@.len()); lemma_words_differ("movzx", "xor"); }
        if k == 2 { assert(X86_MOV@[2] == "movsx"); reveal_strlit("movsx"); assert("movsx"@.len() != "xor"@.len()); lemma_words_differ("movsx", "xor"); }
        if k == 3 { assert(X86_MOV@[3] == "lea"); reveal_strlit("lea"); assert("lea"@[0] != "xor"@[0]); lemma_words_differ("lea", "xor"); }
        if k == 4 { assert(X86_MOV@[4] == "push"); reveal_strlit("push"); assert("push"@.len() != "xor"@.len()); lemma_words_differ("push", "xor"); }
        if k == 5 { assert(X86_MOV@[5] == "pop"); reveal_strlit("pop"); assert("pop"@[0] != "xor"@[0]); lemma_words_differ("pop", "xor"); }
    }
    assert forall|k: int| 0 <= k < 8 implies #[trigger] X86_ARITHMETIC@[k].spec_bytes() != "xor".spec_bytes() by {
        if k == 0 { assert(X86_ARITHMETIC@[0] == "add"); reveal_strlit("add"); assert("add"@[0] != "xor"@[0]); lemma_words_differ("add", "xor"); }
        if k == 1 { assert(X86_ARITHMETIC@[1] == "sub"); reveal_strlit("sub"); assert("sub"@[0] != "xor"@[0]); lemma_words_differ("sub", "xor"); }
        if k == 2 { assert(X86_ARITHMETIC@[2] == "mul"); reveal_strlit("mul"); assert("mul"@[0] != "xor"@[0]); lemma_words_differ("mul", "xor"); }
        if k == 3 { assert(X86_ARITHMETIC@[3] == "imul"); reveal_strlit("imul"); assert("imul"@.len() != "xor"@.len()); lemma_words_differ("imul", "xor"); }
        if k == 4 { assert(X86_ARITHMETIC@[4] == "div"); reveal_strlit("div"); assert("div"@[0] != "xor"@[0]); lemma_words_differ("div", "xor"); }
        if k == 5 { assert(X86_ARITHMETIC@[5] == "idiv"); reveal_strlit("idiv"); assert("idiv"@.len() != "xor"@.len()); lemma_words_differ("idiv", "xor"); }
        if k == 6 { assert(X86_ARITHMETIC@[6] == "inc"); reveal_strlit("inc"); assert("inc"@[0] != "xor"@[0]); lemma_words_differ("inc", "xor"); }
        if k == 7 { assert(X86_ARITHMETIC@[7] == "dec"); reveal_strlit("dec"); assert("dec"@[0] != "xor"@[0]); lemma_words_differ("dec", "xor"); }
    }
}

proof fn lemma_x86_word_not()
    ensures
        crate::instruction::spec_categorize_x86("not".spec_bytes()) == Category::Logic,
{
    reveal_strlit("not");
    assert(X86_LOGIC@[3] == "not");
    assert forall|k: int| 0 <= k < 6 implies #[trigger] X86_MOV@[k].spec_bytes() != "not".spec_bytes() by {
        if k == 0 { assert(X86_MOV@[0] == "mov"); reveal_strlit("mov"); assert("mov"@[0] != "not"@[0]); lemma_words_differ("mov", "not"); }
        if k == 1 { assert(X86_MOV@[1] == "movzx"); reveal_strlit("movzx"); assert("movzx"@.len() != "not"@.len()); lemma_words_differ("movzx", "not"); }
        if k == 2 { assert(X86_MOV@[2] == "movsx"); reveal_strlit("movsx"); assert("movsx"@.len() != "not"@.len()); lemma_words_differ("movsx", "not"); }
        if k == 3 { assert(X86_MOV@[3] == "lea"); reveal_strlit("lea"); assert("lea"@[0] != "not"@[0]); lemma_words_differ("lea", "not"); }
        if k == 4 { assert(X86_MOV@[4] == "push"); reveal_strlit("push"); assert("push"@.len() != "not"@.len()); lemma_words_differ("push", "not"); }
        if k == 5 { assert(X86_MOV@[5] == "pop"); reveal_strlit("pop"); assert("pop"@[0] != "not"@[0]); lemma_words_differ("pop", "not"); }
    }
    assert forall|k: int| 0 <= k < 8 implies #[trigger] X86_ARITHMETIC@[k].spec_bytes() != "not".spec_bytes() by {
        if k == 0 { assert(X86_ARITHMETIC@[0] == "add"); reveal_strlit("add"); assert("add"@[0] != "not"@[0]); lemma_words_differ("add", "not"); }
        if k == 1 { assert(X86_ARITHMETIC@[1] == "sub"); reveal_strlit("sub"); assert("sub"@[0] != "not"@[0]); lemma_words_differ("sub", "not"); }
        if k == 2 { assert(X86_ARITHMETIC@[2] == "mul"); reveal_strlit("mul"); assert("mul"@[0] != "not"@[0]); lemma_words_differ("mul", "not"); }
        if k == 3 { assert(X86_ARITHMETIC@[3] == "imul"); reveal_strlit("imul"); assert("imul"@.len() != "not"@.len()); lemma_words_differ("imul", "not"); }
        if k == 4 { assert(X86_ARITHMETIC@[4] == "div"); reveal_strlit("div"); assert("div"@[0] != "not"@[0]); lemma_words_differ("div", "not"); }
        if k == 5 { assert(X86_ARITHMETIC@[5] == "idiv"); reveal_strlit("idiv"); assert("idiv"@.len() != "not"@.len()); lemma_words_differ("idiv", "not"); }
        if k == 6 { assert(X86_ARITHMETIC@[6] == "inc"); reveal_strlit("inc"); assert("inc"@[0] != "not"@[0]); lemma_words_differ("inc", "not"); }
        if k == 7 { assert(X86_ARITHMETIC@[7] == "dec"); reveal_strlit("dec"); assert("dec"@[0] != "not"@[0]); lemma_words_differ("dec", "not"); }
    }
}

proof fn lemma_x86_word_shl()
    ensures
        crate::instruction::spec_categorize_x86("shl".spec_bytes()) == Category::Logic,
{
    reveal_strlit("shl");
    assert(X86_LOGIC@[4] == "shl");
    assert forall|k: int| 0 <= k < 6 implies #[trigger] X86_MOV@[k].spec_bytes() != "shl".spec_bytes() by {
        if k == 0 { assert(X86_MOV@[0] == "mov"); reveal_strlit("mov"); assert("mov"@[0] != "shl"@[0]); lemma_words_differ("mov", "shl"); }
        if k == 1 { assert(X86_MOV@[1] == "movzx"); reveal_strlit("movzx"); assert("movzx"@.len() != "shl"@.len()); lemma_words_differ("movzx", "shl"); }
        if k == 2 { assert(X86_MOV@[2] == "movsx"); reveal_strlit("movsx"); assert("movsx"@.len() != "shl"@.len()); lemma_words_differ("movsx", "shl"); }
        if k == 3 { assert(X86_MOV@[3] == "lea"); reveal_strlit("lea"); assert("lea"@[0] != "shl"@[0]); lemma_words_differ("lea", "shl"); }
        if k == 4 { assert(X86_MOV@[4] == "push"); reveal_strlit("push"); assert("push"@.len() != "shl"@.len()); lemma_words_differ("push", "shl"); }
        if k == 5 { assert(X86_MOV@[5] == "pop"); reveal_strlit("pop"); assert("pop"@[0] != "shl"@[0]); lemma_words_differ("pop", "shl"); }
    }
    assert forall|k: int| 0 <= k < 8 implies #[trigger] X86_ARITHMETIC@[k].spec_bytes() != "shl".spec_bytes() by {
        if k == 0 { assert(X86_ARITHMETIC@[0] == "add"); reveal_strlit("add"); assert("add"@[0] != "shl"@[0]); lemma_words_differ("add", "shl"); }
        if k == 1 { assert(X86_ARITHMETIC@[1] == "sub"); reveal_strlit("sub"); assert("sub"@[1] != "shl"@[1]); lemma_words_differ("sub", "shl"); }
        if k == 2 { assert(X86_ARITHMETIC@[2] == "mul"); reveal_strlit("mul"); assert("mul"@[0] != "shl"@[0]); lemma_words_differ("mul", "shl"); }
        if k == 3 { assert(X86_ARITHMETIC@[3] == "imul"); reveal_strlit("imul"); assert("imul"@.len() != "shl"@.len()); lemma_words_differ("imul", "shl"); }
        if k == 4 { assert(X86_ARITHMETIC@[4] == "div"); reveal_strlit("div"); assert("div"@[0] != "shl"@[0]); lemma_words_differ("div", "shl"); }
        if k == 5 { assert(X86_ARITHMETIC@[5] == "idiv"); reveal_strlit("idiv"); assert("idiv"@.len() != "shl"@.len()); lemma_words_differ("idiv", "shl"); }
        if k == 6 { assert(X86_ARITHMETIC@[6] == "inc"); reveal_strlit("inc"); assert("inc"@[0] != "shl"@[0]); lemma_words_differ("inc", "shl"); }
        if k == 7 { assert(X86_ARITHMETIC@[7] == "dec"); reveal_strlit("dec"); assert("dec"@[0] != "shl"@[0]); lemma_words_differ("dec", "shl"); }
    }
}

proof fn lemma_x86_word_shr()
    ensures
        crate::instruction::spec_categorize_x86("shr".spec_bytes()) == Category::Logic,
{
    reveal_strlit("shr");
    assert(X86_LOGIC@[5] == "shr");
    assert forall|k: int| 0 <= k < 6 implies #[trigger] X86_MOV@[k].spec_bytes() != "shr".spec_bytes() by {
        if k == 0 { assert(X86_MOV@[0] == "mov"); reveal_strlit("mov"); assert("mov"@[0] != "shr"@[0]); lemma_words_differ("mov", "shr"); }
        if k == 1 { assert(X86_MOV@[1] == "movzx"); reveal_strlit("movzx"); assert("movzx"@.len() != "shr"@.len()); lemma_words_differ("movzx", "shr"); }
        if k == 2 { assert(X86_MOV@[2] == "movsx"); reveal_strlit("movsx"); assert("movsx"@.len() != "shr"@.len()); lemma_words_differ("movsx", "shr"); }
        if k == 3 { assert(X86_MOV@[3] == "lea"); reveal_strlit("lea"); assert("lea"@[0] != "shr"@[0]); lemma_words_differ("lea", "shr"); }
        if k == 4 { assert(X86_MOV@[4] == "push"); reveal_strlit("push"); assert("push"@.len() != "shr"@.len()); lemma_words_differ("push", "shr"); }
        if k == 5 { assert(X86_MOV@[5] == "pop"); reveal_strlit("pop"); assert("pop"@[0] != "shr"@[0]); lemma_words_differ("pop", "shr"); }
    }
    assert forall|k: int| 0 <= k < 8 implies #[trigger] X86_ARITHMETIC@[k].spec_bytes() != "shr".spec_bytes() by {
        if k == 0 { assert(X86_ARITHMETIC@[0] == "add"); reveal_strlit("add"); assert("add"@[0] != "shr"@[0]); lemma_words_differ("add", "shr"); }
        if k == 1 { assert(X86_ARITHMETIC@[1] == "sub"); reveal_strlit("sub"); assert("sub"@[1] != "shr"@[1]); lemma_words_differ("sub", "shr"); }
        if k == 2 { assert(X86_ARITHMETIC@[2] == "mul"); reveal_strlit("mul"); assert("mul"@[0] != "shr"@[0]); lemma_words_differ("mul", "shr"); }
        if k == 3 { assert(X86_ARITHMETIC@[3] == "imul"); reveal_strlit("imul"); assert("imul"@.len() != "shr"@.len()); lemma_words_differ("imul", "shr"); }
        if k == 4 { assert(X86_ARITHMETIC@[4] == "div"); reveal_strlit("div"); assert("div"@[0] != "shr"@[0]); lemma_words_differ("div", "shr"); }
        if k == 5 { assert(X86_ARITHMETIC@[5] == "idiv"); reveal_strlit("idiv"); assert("idiv"@.len() != "shr"@.len()); lemma_words_differ("idiv", "shr"); }
        if k == 6 { assert(X86_ARITHMETIC@[6] == "inc"); reveal_strlit("inc"); assert("inc"@[0] != "shr"@[0]); lemma_words_differ("inc", "shr"); }
        if k == 7 { assert(X86_ARITHMETIC@[7] == "dec"); reveal_strlit("dec"); assert("dec"@[0] != "shr"@[0]); lemma_words_differ("dec", "shr"); }
    }
}

proof fn lemma_x86_word_sar()
    ensures
        crate::instruction::spec_categorize_x86("sar".spec_bytes()) == Category::Logic,
{
    reveal_strlit("sar");
    assert(X86_LOGIC@[6] == "sar");
    assert forall|k: int| 0 <= k < 6 implies #[trigger] X86_MOV@[k].spec_bytes() != "sar".spec_bytes() by {
        if k == 0 { assert(X86_MOV@[0] == "mov"); reveal_strlit("mov"); assert("mov"@[0] != "sar"@[0]); lemma_words_differ("mov", "sar"); }
        if k == 1 { assert(X86_MOV@[1] == "movzx"); reveal_strlit("movzx"); assert("movzx"@.len() != "sar"@.len()); lemma_words_differ("movzx", "sar"); }
        if k == 2 { assert(X86_MOV@[2] == "movsx"); reveal_strlit("movsx"); assert("movsx"@.len() != "sar"@.len()); lemma_words_differ("movsx", "sar"); }
        if k == 3 { assert(X86_MOV@[3] == "lea"); reveal_strlit("lea"); assert("lea"@[0] != "sar"@[0]); lemma_words_differ("lea", "sar"); }
        if k == 4 { assert(X86_MOV@[4] == "push"); reveal_strlit("push"); assert("push"@.len() != "sar"@.len()); lemma_words_differ("push", "sar"); }
        if k == 5 { assert(X86_MOV@[5] == "pop"); reveal_strlit("pop"); assert("pop"@[0] != "sar"@[0]); lemma_words_differ("pop", "sar"); }
    }
    assert forall|k: int| 0 <= k < 8 implies #[trigger] X86_ARITHMETIC@[k].spec_bytes() != "sar".spec_bytes() by {
        if k == 0 { assert(X86_ARITHMETIC@[0] == "add"); reveal_strlit("add"); assert("add"@[0] != "sar"@[0]); lemma_words_differ("add", "sar"); }
        if k == 1 { assert(X86_ARITHMETIC@[1] == "sub"); reveal_strlit("sub"); assert("sub"@[1] != "sar"@[1]); lemma_words_differ("sub", "sar"); }
        if k == 2 { assert(X86_ARITHMETIC@[2] == "mul"); reveal_strlit("mul"); assert("mul"@[0] != "sar"@[0]); lemma_words_differ("mul", "sar"); }
        if k == 3 { assert(X86_ARITHMETIC@[3] == "imul"); reveal_strlit("imul"); assert("imul"@.len() != "sar"@.len()); lemma_words_differ("imul", "sar"); }
        if k == 4 { assert(X86_ARITHMETIC@[4] == "div"); reveal_strlit("div"); assert("div"@[0] != "sar"@[0]); lemma_words_differ("div", "sar"); }
        if k == 5 { assert(X86_ARITHMETIC@[5] == "idiv"); reveal_strlit("idiv"); assert("idiv"@.len() != "sar"@.len()); lemma_words_differ("idiv", "sar"); }
        if k == 6 { assert(X86_ARITHMETIC@[6] == "inc"); reveal_strlit("inc"); assert("inc"@[0] != "sar"@[0]); lemma_words_differ("inc", "sar"); }
        if k == 7 { assert(X86_ARITHMETIC@[7] == "dec"); reveal_strlit("dec"); assert("dec"@[0] != "sar"@[0]); lemma_words_differ("dec", "sar"); }
    }
}

proof fn lemma_x86_word_rol()
    ensures
        crate::instruction::spec_categorize_x86("rol".spec_bytes()) == Category::Logic,
{
    reveal_strlit("rol");
    assert(X86_LOGIC@[7] == "rol");
    assert forall|k: int| 0 <= k < 6 implies #[trigger] X86_MOV@[k].spec_bytes() != "rol".spec_bytes() by {
        if k == 0 { assert(X86_MOV@[0] == "mov"); reveal_strlit("mov"); assert("mov"@[0] != "rol"@[0]); lemma_words_differ("mov", "rol"); }
        if k == 1 { assert(X86_MOV@[1] == "movzx"); reveal_strlit("movzx"); assert("movzx"@.len() != "rol"@.len()); lemma_words_differ("movzx", "rol"); }
        if k == 2 { assert(X86_MOV@[2] == "movsx"); reveal_strlit("movsx"); assert("movsx"@.len() != "rol"@.len()); lemma_words_differ("movsx", "rol"); }
        if k == 3 { assert(X86_MOV@[3] == "lea"); reveal_strlit("lea"); assert("lea"@[0] != "rol"@[0]); lemma_words_differ("lea", "rol"); }
        if k == 4 { assert(X86_MOV@[4] == "push"); reveal_strlit("push"); assert("push"@.len() != "rol"@.len()); lemma_words_differ("push", "rol"); }
        if k == 5 { assert(X86_MOV@[5] == "pop"); reveal_strlit("pop"); assert("pop"@[0] != "rol"@[0]); lemma_words_differ("pop", "rol"); }
    }
    assert forall|k: int| 0 <= k < 8 implies #[trigger] X86_ARITHMETIC@[k].spec_bytes() != "rol".spec_bytes() by {
        if k == 0 { assert(X86_ARITHMETIC@[0] == "add"); reveal_strlit("add"); assert("add"@[0] != "rol"@[0]); lemma_words_differ("add", "rol"); }
        if k == 1 { assert(X86_ARITHMETIC@[1] == "sub"); reveal_strlit("sub"); assert("sub"@[0] != "rol"@[0]); lemma_words_differ("sub", "rol"); }
        if k == 2 { assert(X86_ARITHMETIC@[2] == "mul"); reveal_strlit("mul"); assert("mul"@[0] != "rol"@[0]); lemma_words_differ("mul", "rol"); }
        if k == 3 { assert(X86_ARITHMETIC@[3] == "imul"); reveal_strlit("imul"); assert("imul"@.len() != "rol"@.len()); lemma_words_differ("imul", "rol"); }
        if k == 4 { assert(X86_ARITHMETIC@[4] == "div"); reveal_strlit("div"); assert("div"@[0] != "rol"@[0]); lemma_words_differ("div", "rol"); }
        if k == 5 { assert(X86_ARITHMETIC@[5] == "idiv"); reveal_strlit("idiv"); assert("idiv"@.len() != "rol"@.len()); lemma_words_differ("idiv", "rol"); }
        if k == 6 { assert(X86_ARITHMETIC@[6] == "inc"); reveal_strlit("inc"); assert("inc"@[0] != "rol"@[0]); lemma_words_differ("inc", "rol"); }
        if k == 7 { assert(X86_ARITHMETIC@[7] == "dec"); reveal_strlit("dec"); assert("dec"@[0] != "rol"@[0]); lemma_words_differ("dec", "rol"); }
    }
}

proof fn lemma_x86_word_ror()
    ensures
        crate::instruction::spec_categorize_x86("ror".spec_bytes()) == Category::Logic,
{
    reveal_strlit("ror");
    assert(X86_LOGIC@[8] == "ror");
    assert forall|k: int| 0 <= k < 6 implies #[trigger] X86_MOV@[k].spec_bytes() != "ror".spec_bytes() by {
        if k == 0 { assert(X86_MOV@[0] == "mov"); reveal_strlit("mov"); assert("mov"@[0] != "ror"@[0]); lemma_words_differ("mov", "ror"); }
        if k == 1 { assert(X86_MOV@[1] == "movzx"); reveal_strlit("movzx"); assert("movzx"@.len() != "ror"@.len()); lemma_words_differ("movzx", "ror"); }
        if k == 2 { assert(X86_MOV@[2] == "movsx"); reveal_strlit("movsx"); assert("movsx"@.len() != "ror"@.len()); lemma_words_differ("movsx", "ror"); }
        if k == 3 { assert(X86_MOV@[3] == "lea"); reveal_strlit("lea"); assert("lea"@[0] != "ror"@[0]); lemma_words_differ("lea", "ror"); }
        if k == 4 { assert(X86_MOV@[4] == "push"); reveal_strlit("push"); assert("push"@.len() != "ror"@.len()); lemma_words_differ("push", "ror"); }
        if k == 5 { assert(X86_MOV@[5] == "pop"); reveal_strlit("pop"); assert("pop"@[0] != "ror"@[0]); lemma_words_differ("pop", "ror"); }
    }
    assert forall|k: int| 0 <= k < 8 implies #[trigger] X86_ARITHMETIC@[k].spec_bytes() != "ror".spec_bytes() by {
        if k == 0 { assert(X86_ARITHMETIC@[0] == "add"); reveal_strlit("add"); assert("add"@[0] != "ror"@[0]); lemma_words_differ("add", "ror"); }
        if k == 1 { assert(X86_ARITHMETIC@[1] == "sub"); reveal_strlit("sub"); assert("sub"@[0] != "ror"@[0]); lemma_words_differ("sub", "ror"); }
        if k == 2 { assert(X86_ARITHMETIC@[2] == "mul"); reveal_strlit("mul"); assert("mul"@[0] != "ror"@[0]); lemma_words_differ("mul", "ror"); }
        if k == 3 { assert(X86_ARITHMETIC@[3] == "imul"); reveal_strlit("imul"); assert("imul"@.len() != "ror"@.len()); lemma_words_differ("imul", "ror"); }
        if k == 4 { assert(X86_ARITHMETIC@[4] == "div"); reveal_strlit("div"); assert("div"@[0] != "ror"@[0]); lemma_words_differ("div", "ror"); }
        if k == 5 { assert(X86_ARITHMETIC@[5] == "idiv"); reveal_strlit("idiv"); assert("idiv"@.len() != "ror"@.len()); lemma_words_differ("idiv", "ror"); }
        if k == 6 { assert(X86_ARITHMETIC@[6] == "inc"); reveal_strlit("inc"); assert("inc"@[0] != "ror"@[0]); lemma_words_differ("inc", "ror"); }
        if k == 7 { assert(X86_ARITHMETIC@[7] == "dec"); reveal_strlit("dec"); assert("dec"@[0] != "ror"@[0]); lemma_words_differ("dec", "ror"); }
    }
}

proof fn lemma_x86_logic_words(m: Seq<u8>)
    requires
        m == "and".spec_bytes() || m == "or".spec_bytes() || m == "xor".spec_bytes() || m == "not".spec_bytes() || m == "shl".spec_bytes() || m == "shr".spec_bytes() || m == "sar".spec_bytes() || m == "rol".spec_bytes() || m == "ror".spec_bytes(),
    ensures
        crate::instruction::spec_categorize_x86(m) == Category::Logic,
        crate::instruction::spec_categorize(m, ArchKind::X86) == Category::Logic,
        crate::instruction::listing_counts(seq![Some(m)], ArchKind::X86) == (1int, 0int, 0int, 1int, 0int, 0int),
        crate::instruction::spec_categorize(m, ArchKind::X86_64) == Category::Logic,
        crate::instruction::listing_counts(seq![Some(m)], ArchKind::X86_64) == (1int, 0int, 0int, 1int, 0int, 0int),
{
    if m == "and".spec_bytes() {
        lemma_x86_word_and();
        reveal_strlit("and");
        lemma_lower_fixed("and");
    }
    if m == "or".spec_bytes() {
        lemma_x86_word_or();
        reveal_strlit("or");
        lemma_lower_fixed("or");
    }
    if m == "xor".spec_bytes() {
        lemma_x86_word_xor();
        reveal_strlit("xor");
        lemma_lower_fixed("xor");
    }
    if m == "not".spec_bytes() {
        lemma_x86_word_not();
        reveal_strlit("not");
        lemma_lower_fixed("not");
    }
    if m == "shl".spec_bytes() {
        lemma_x86_word_shl();
        reveal_strlit("shl");
        lemma_lower_fixed("shl");
    }
    if m == "shr".spec_bytes() {
        lemma_x86_word_shr();
        reveal_strlit("shr");
        lemma_lower_fixed("shr");
    }
    if m == "sar".spec_bytes() {
        lemma_x86_word_sar();
        reveal_strlit("sar");
        lemma_lower_fixed("sar");
    }
    if m == "rol".spec_bytes() {
        lemma_x86_word_rol();
        reveal_strlit("rol");
        lemma_lower_fixed("rol");
    }
    if m == "ror".spec_bytes() {
        lemma_x86_word_ror();
        reveal_strlit("ror");
        lemma_lower_fixed("ror");
    }
    assert(seq![Some(m)].drop_last() =~= Seq::<Option<Seq<u8>>>::empty());
    assert(seq![Some(m)].last() == Some(m));
    assert(crate::instruction::listing_counts(Seq::<Option<Seq<u8>>>::empty(), ArchKind::X86) == (0int, 0int, 0int, 0int, 0int, 0int));
    assert(crate::instruction::listing_counts(Seq::<Option<Seq<u8>>>::empty(), ArchKind::X86_64) == (0int, 0int, 0int, 0int, 0int, 0int));
}

proof fn lemma_x86_word_jmp()
    ensures
        crate::instruction::spec_categorize_x86("jmp".spec_bytes()) == Category::ControlFlow,
{
    reveal_strlit("jmp");
    assert(X86_CONTROL@[0] == "jmp");
    assert forall|k: int| 0 <= k < 6 implies #[trigger] X86_MOV@[k].spec_bytes() != "jmp".spec_bytes() by {
        if k == 0 { assert(X86_MOV@[0] == "mov"); reveal_strlit("mov"); assert("mov"@[0] != "jmp"@[0]); lemma_words_differ("mov", "jmp"); }
        if k == 1 { assert(X86_MOV@[1] == "movzx"); reveal_strlit("movzx"); assert("movzx"@.len() != "jmp"@.len()); lemma_words_differ("movzx", "jmp"); }
        if k == 2 { assert(X86_MOV@[2] == "movsx"); reveal_strlit("movsx"); assert("movsx"@.len() != "jmp"@.len()); lemma_words_differ("movsx", "jmp"); }
        if k == 3 { assert(X86_MOV@[3] == "lea"); reveal_strlit("lea"); assert("lea"@[0] != "jmp"@[0]); lemma_words_differ("lea", "jmp"); }
        if k == 4 { assert(X86_MOV@[4] == "push"); reveal_strlit("push"); assert("push"@.len() != "jmp"@.len()); lemma_words_differ("push", "jmp"); }
        if k == 5 { assert(X86_MOV@[5] == "pop"); reveal_strlit("pop"); assert("pop"@[0] != "jmp"@[0]); lemma_words_differ("pop", "jmp"); }
    }
    assert forall|k: int| 0 <= k < 8 implies #[trigger] X86_ARITHMETIC@[k].spec_bytes() != "jmp".spec_bytes() by {
        if k == 0 { assert(X86_ARITHMETIC@[0] == "add"); reveal_strlit("add"); assert("add"@[0] != "jmp"@[0]); lemma_words_differ("add", "jmp"); }
        if k == 1 { assert(X86_ARITHMETIC@[1] == "sub"); reveal_strlit("sub"); assert("sub"@[0] != "jmp"@[0]); lemma_words_differ("sub", "jmp"); }
        if k == 2 { assert(X86_ARITHMETIC@[2] == "mul"); reveal_strlit("mul"); assert("mul"@[0] != "jmp"@[0]); lemma_words_differ("mul", "jmp"); }
        if k == 3 { assert(X86_ARITHMETIC@[3] == "imul"); reveal_strlit("imul"); assert("imul"@.len() != "jmp"@.len()); lemma_words_differ("imul", "jmp"); }
        if k == 4 { assert(X86_ARITHMETIC@[4] == "div"); reveal_strlit("div"); assert("div"@[0] != "jmp"@[0]); lemma_words_differ("div", "jmp"); }
        if k == 5 { assert(X86_ARITHMETIC@[5] == "idiv"); reveal_strlit("idiv"); assert("idiv"@.len() != "jmp"@.len()); lemma_words_differ("idiv", "jmp"); }
        if k == 6 { assert(X86_ARITHMETIC@[6] == "inc"); reveal_strlit("inc"); assert("inc"@[0] != "jmp"@[0]); lemma_words_differ("inc", "jmp"); }
        if k == 7 { assert(X86_ARITHMETIC@[7] == "dec"); reveal_strlit("dec"); assert("dec"@[0] != "jmp"@[0]); lemma_words_differ("dec", "jmp"); }
    }
    assert forall|k: int| 0 <= k < 9 implies #[trigger] X86_LOGIC@[k].spec_bytes() != "jmp".spec_bytes() by {
        if k == 0 { assert(X86_LOGIC@[0] == "and"); reveal_strlit("and"); assert("and"@[0] != "jmp"@[0]); lemma_words_differ("and", "jmp"); }
        if k == 1 { assert(X86_LOGIC@[1] == "or"); reveal_strlit("or"); assert("or"@.len() != "jmp"@.len()); lemma_words_differ("or", "jmp"); }
        if k == 2 { assert(X86_LOGIC@[2] == "xor"); reveal_strlit("xor"); assert("xor"@[0] != "jmp"@[0]); lemma_words_differ("xor", "jmp"); }
        if k == 3 { assert(X86_LOGIC@[3] == "not"); reveal_strlit("not"); assert("not"@[0] != "jmp"@[0]); lemma_words_differ("not", "jmp"); }
        if k == 4 { assert(X86_LOGIC@[4] == "shl"); reveal_strlit("shl"); assert("shl"@[0] != "jmp"@[0]); lemma_words_differ("shl", "jmp"); }
        if k == 5 { assert(X86_LOGIC@[5] == "shr"); reveal_strlit("shr"); assert("shr"@[0] != "jmp"@[0]); lemma_words_differ("shr", "jmp"); }
        if k == 6 { assert(X86_LOGIC@[6] == "sar"); reveal_strlit("sar"); assert("sar"@[0] != "jmp"@[0]); lemma_words_differ("sar", "jmp"); }
        if k == 7 { assert(X86_LOGIC@[7] == "rol"); reveal_strlit("rol"); assert("rol"@[0] != "jmp"@[0]); lemma_words_differ("rol", "jmp"); }
        if k == 8 { assert(X86_LOGIC@[8] == "ror"); reveal_strlit("ror"); assert("ror"@[0] != "jmp"@[0]); lemma_words_differ("ror", "jmp"); }
    }
}

proof fn lemma_x86_word_je()
    ensures
        crate::instruction::spec_categorize_x86("je".spec_bytes()) == Category::ControlFlow,
{
    reveal_strlit("je");
    assert(X86_CONTROL@[1] == "je");
    assert forall|k: int| 0 <= k < 6 implies #[trigger] X86_MOV@[k].spec_bytes() != "je".spec_bytes() by {
        if k == 0 { assert(X86_MOV@[0] == "mov"); reveal_strlit("mov"); assert("mov"@.len() != "je"@.len()); lemma_words_differ("mov", "je"); }
        if k == 1 { assert(X86_MOV@[1] == "movzx"); reveal_strlit("movzx"); assert("movzx"@.len() != "je"@.len()); lemma_words_differ("movzx", "je"); }
        if k == 2 { assert(X86_MOV@[2] == "movsx"); reveal_strlit("movsx"); assert("movsx"@.len() != "je"@.len()); lemma_words_differ("movsx", "je"); }
        if k == 3 { assert(X86_MOV@[3] == "lea"); reveal_strlit("lea"); assert("lea"@.len() != "je"@.len()); lemma_words_differ("lea", "je"); }
        if k == 4 { assert(X86_MOV@[4] == "push"); reveal_strlit("push"); assert("push"@.len() != "je"@.len()); lemma_words_differ("push", "je"); }
        if k == 5 { assert(X86_MOV@[5] == "pop"); reveal_strlit("pop"); assert("pop"@.len() != "je"@.len()); lemma_words_differ("pop", "je"); }
    }
    assert forall|k: int| 0 <= k < 8 implies #[trigger] X86_ARITHMETIC@[k].spec_bytes() != "je".spec_bytes() by {
        if k == 0 { assert(X86_ARITHMETIC@[0] == "add"); reveal_strlit("add"); assert("add"@.len() != "je"@.len()); lemma_words_differ("add", "je"); }
        if k == 1 { assert(X86_ARITHMETIC@[1] == "sub"); reveal_strlit("sub"); assert("sub"@.len() != "je"@.len()); lemma_words_differ("sub", "je"); }
        if k == 2 { assert(X86_ARITHMETIC@[2] == "mul"); reveal_strlit("mul"); assert("mul"@.len() != "je"@.len()); lemma_words_differ("mul", "je"); }
        if k == 3 { assert(X86_ARITHMETIC@[3] == "imul"); reveal_strlit("imul"); assert("imul"@.len() != "je"@.len()); lemma_words_differ("imul", "je"); }
        if k == 4 { assert(X86_ARITHMETIC@[4] == "div"); reveal_strlit("div"); assert("div"@.len() != "je"@.len()); lemma_words_differ("div", "je"); }
        if k == 5 { assert(X86_ARITHMETIC@[5] == "idiv"); reveal_strlit("idiv"); assert("idiv"@.len() != "je"@.len()); lemma_words_differ("idiv", "je"); }
        if k == 6 { assert(X86_ARITHMETIC@[6] == "inc"); reveal_strlit("inc"); assert("inc"@.len() != "je"@.len()); lemma_words_differ("inc", "je"); }
        if k == 7 { assert(X86_ARITHMETIC@[7] == "dec"); reveal_strlit("dec"); assert("dec"@.len() != "je"@.len()); lemma_words_differ("dec", "je"); }
    }
    assert forall|k: int| 0 <= k < 9 implies #[trigger] X86_LOGIC@[k].spec_bytes() != "je".spec_bytes() by {
        if k == 0 { assert(X86_LOGIC@[0] == "and"); reveal_strlit("and"); assert("and"@.len() != "je"@.len()); lemma_words_differ("and", "je"); }
        if k == 1 { assert(X86_LOGIC@[1] == "or"); reveal_strlit("or"); assert("or"@[0] != "je"@[0]); lemma_words_differ("or", "je"); }
        if k == 2 { assert(X86_LOGIC@[2] == "xor"); reveal_strlit("xor"); assert("xor"@.len() != "je"@.len()); lemma_words_differ("xor", "je"); }
        if k == 3 { assert(X86_LOGIC@[3] == "not"); reveal_strlit("not"); assert("not"@.len() != "je"@.len()); lemma_words_differ("not", "je"); }
        if k == 4 { assert(X86_LOGIC@[4] == "shl"); reveal_strlit("shl"); assert("shl"@.len() != "je"@.len()); lemma_words_differ("shl", "je"); }
        if k == 5 { assert(X86_LOGIC@[5] == "shr"); reveal_strlit("shr"); assert("shr"@.len() != "je"@.len()); lemma_words_differ("shr", "je"); }
        if k == 6 { assert(X86_LOGIC@[6] == "sar"); reveal_strlit("sar"); assert("sar"@.len() != "je"@.len()); lemma_words_differ("sar", "je"); }
        if k == 7 { assert(X86_LOGIC@[7] == "rol"); reveal_strlit("rol"); assert("rol"@.len() != "je"@.len()); lemma_words_differ("rol", "je"); }
        if k == 8 { assert(X86_LOGIC@[8] == "ror"); reveal_strlit("ror"); assert("ror"@.len() != "je"@.len()); lemma_words_differ("ror", "je"); }
    }
}

proof fn lemma_x86_word_jne()
    ensures
        crate::instruction::spec_categorize_x86("jne".spec_bytes()) == Category::ControlFlow,
{
    reveal_strlit("jne");
    assert(X86_CONTROL@[2] == "jne");
    assert forall|k: int| 0 <= k < 6 implies #[trigger] X86_MOV@[k].spec_bytes() != "jne".spec_bytes() by {
        if k == 0 { assert(X86_MOV@[0] == "mov"); reveal_strlit("mov"); assert("mov"@[0] != "jne"@[0]); lemma_words_differ("mov", "jne"); }
        if k == 1 { assert(X86_MOV@[1] == "movzx"); reveal_strlit("movzx"); assert("movzx"@.len() != "jne"@.len()); lemma_words_differ("movzx", "jne"); }
        if k == 2 { assert(X86_MOV@[2] == "movsx"); reveal_strlit("movsx"); assert("movsx"@.len() != "jne"@.len()); lemma_words_differ("movsx", "jne"); }
        if k == 3 { assert(X86_MOV@[3] == "lea"); reveal_strlit("lea"); assert("lea"@[0] != "jne"@[0]); lemma_words_differ("lea", "jne"); }
        if k == 4 { assert(X86_MOV@[4] == "push"); reveal_strlit("push"); assert("push"@.len() != "jne"@.len()); lemma_words_differ("push", "jne"); }
        if k == 5 { assert(X86_MOV@[5] == "pop"); reveal_strlit("pop"); assert("pop"@[0] != "jne"@[0]); lemma_words_differ("pop", "jne"); }
    }
    assert forall|k: int| 0 <= k < 8 implies #[trigger] X86_ARITHMETIC@[k].spec_bytes() != "jne".spec_bytes() by {
        if k == 0 { assert(X86_ARITHMETIC@[0] == "add"); reveal_strlit("add"); assert("add"@[0] != "jne"@[0]); lemma_words_differ("add", "jne"); }
        if k == 1 { assert(X86_ARITHMETIC@[1] == "sub"); reveal_strlit("sub"); assert("sub"@[0] != "jne"@[0]); lemma_words_differ("sub", "jne"); }
        if k == 2 { assert(X86_ARITHMETIC@[2] == "mul"); reveal_strlit("mul"); assert("mul"@[0] != "jne"@[0]); lemma_words_differ("mul", "jne"); }
        if k == 3 { assert(X86_ARITHMETIC@[3] == "imul"); reveal_strlit("imul"); assert("imul"@.len() != "jne"@.len()); lemma_words_differ("imul", "jne"); }
        if k == 4 { assert(X86_ARITHMETIC@[4] == "div"); reveal_strlit("div"); assert("div"@[0] != "jne"@[0]); lemma_words_differ("div", "jne"); }
        if k == 5 { assert(X86_ARITHMETIC@[5] == "idiv"); reveal_strlit("idiv"); assert("idiv"@.len() != "jne"@.len()); lemma_words_differ("idiv", "jne"); }
        if k == 6 { assert(X86_ARITHMETIC@[6] == "inc"); reveal_strlit("inc"); assert("inc"@[0] != "jne"@[0]); lemma_words_differ("inc", "jne"); }
        if k == 7 { assert(X86_ARITHMETIC@[7] == "dec"); reveal_strlit("dec"); assert("dec"@[0] != "jne"@[0]); lemma_words_differ("dec", "jne"); }
    }
    assert forall|k: int| 0 <= k < 9 implies #[trigger] X86_LOGIC@[k].spec_bytes() != "jne".spec_bytes() by {
        if k == 0 { assert(X86_LOGIC@[0] == "and"); reveal_strlit("and"); assert("and"@[0] != "jne"@[0]); lemma_words_differ("and", "jne"); }
        if k == 1 { assert(X86_LOGIC@[1] == "or"); reveal_strlit("or"); assert("or"@.len() != "jne"@.len()); lemma_words_differ("or", "jne"); }
        if k == 2 { assert(X86_LOGIC@[2] == "xor"); reveal_strlit("xor"); assert("xor"@[0] != "jne"@[0]); lemma_words_differ("xor", "jne"); }
        if k == 3 { assert(X86_LOGIC@[3] == "not"); reveal_strlit("not"); assert("not"@[0] != "jne"@[0]); lemma_words_differ("not", "jne"); }
        if k == 4 { assert(X86_LOGIC@[4] == "shl"); reveal_strlit("shl"); assert("shl"@[0] != "jne"@[0]); lemma_words_differ("shl", "jne"); }
        if k == 5 { assert(X86_LOGIC@[5] == "shr"); reveal_strlit("shr"); assert("shr"@[0] != "jne"@[0]); lemma_words_differ("shr", "jne"); }
        if k == 6 { assert(X86_LOGIC@[6] == "sar"); reveal_strlit("sar"); assert("sar"@[0] != "jne"@[0]); lemma_words_differ("sar", "jne"); }
        if k == 7 { assert(X86_LOGIC@[7] == "rol"); reveal_strlit("rol"); assert("rol"@[0] != "jne"@[0]); lemma_words_differ("rol", "jne"); }
        if k == 8 { assert(X86_LOGIC@[8] == "ror"); reveal_strlit("ror"); assert("ror"@[0] != "jne"@[0]); lemma_words_differ("ror", "jne"); }
    }
}

proof fn lemma_x86_word_jz()
    ensures
        crate::instruction::spec_categorize_x86("jz".spec_bytes()) == Category::ControlFlow,
{
    reveal_strlit("jz");
    assert(X86_CONTROL@[3] == "jz");
    assert forall|k: int| 0 <= k < 6 implies #[trigger] X86_MOV@[k].spec_bytes() != "jz".spec_bytes() by {
        if k == 0 { assert(X86_MOV@[0] == "mov"); reveal_strlit("mov"); assert("mov"@.len() != "jz"@.len()); lemma_words_differ("mov", "jz"); }
        if k == 1 { assert(X86_MOV@[1] == "movzx"); reveal_strlit("movzx"); assert("movzx"@.len() != "jz"@.len()); lemma_words_differ("movzx", "jz"); }
        if k == 2 { assert(X86_MOV@[2] == "movsx"); reveal_strlit("movsx"); assert("movsx"@.len() != "jz"@.len()); lemma_words_differ("movsx", "jz"); }
        if k == 3 { assert(X86_MOV@[3] == "lea"); reveal_strlit("lea"); assert("lea"@.len() != "jz"@.len()); lemma_words_differ("lea", "jz"); }
        if k == 4 { assert(X86_MOV@[4] == "push"); reveal_strlit("push"); assert("push"@.len() != "jz"@.len()); lemma_words_differ("push", "jz"); }
        if k == 5 { assert(X86_MOV@[5] == "pop"); reveal_strlit("pop"); assert("pop"@.len() != "jz"@.len()); lemma_words_differ("pop", "jz"); }
    }
    assert forall|k: int| 0 <= k < 8 implies #[trigger] X86_ARITHMETIC@[k].spec_bytes() != "jz".spec_bytes() by {
        if k == 0 { assert(X86_ARITHMETIC@[0] == "add"); reveal_strlit("add"); assert("add"@.len() != "jz"@.len()); lemma_words_differ("add", "jz"); }
        if k == 1 { assert(X86_ARITHMETIC@[1] == "sub"); reveal_strlit("sub"); assert("sub"@.len() != "jz"@.len()); lemma_words_differ("sub", "jz"); }
        if k == 2 { assert(X86_ARITHMETIC@[2] == "mul"); reveal_strlit("mul"); assert("mul"@.len() != "jz"@.len()); lemma_words_differ("mul", "jz"); }
        if k == 3 { assert(X86_ARITHMETIC@[3] == "imul"); reveal_strlit("imul"); assert("imul"@.len() != "jz"@.len()); lemma_words_differ("imul", "jz"); }
        if k == 4 { assert(X86_ARITHMETIC@[4] == "div"); reveal_strlit("div"); assert("div"@.len() != "jz"@.len()); lemma_words_differ("div", "jz"); }
        if k == 5 { assert(X86_ARITHMETIC@[5] == "idiv"); reveal_strlit("idiv"); assert("idiv"@.len() != "jz"@.len()); lemma_words_differ("idiv", "jz"); }
        if k == 6 { assert(X86_ARITHMETIC@[6] == "inc"); reveal_strlit("inc"); assert("inc"@.len() != "jz"@.len()); lemma_words_differ("inc", "jz"); }
        if k == 7 { assert(X86_ARITHMETIC@[7] == "dec"); reveal_strlit("dec"); assert("dec"@.len() != "jz"@.len()); lemma_words_differ("dec", "jz"); }
    }
    assert forall|k: int| 0 <= k < 9 implies #[trigger] X86_LOGIC@[k].spec_bytes() != "jz".spec_bytes() by {
        if k == 0 { assert(X86_LOGIC@[0] == "and"); reveal_strlit("and"); assert("and"@.len() != "jz"@.len()); lemma_words_differ("and", "jz"); }
        if k == 1 { assert(X86_LOGIC@[1] == "or"); reveal_strlit("or"); assert("or"@[0] != "jz"@[0]); lemma_words_differ("or", "jz"); }
        if k == 2 { assert(X86_LOGIC@[2] == "xor"); reveal_strlit("xor"); assert("xor"@.len() != "jz"@.len()); lemma_words_differ("xor", "jz"); }
        if k == 3 { assert(X86_LOGIC@[3] == "not"); reveal_strlit("not"); assert("not"@.len() != "jz"@.len()); lemma_words_differ("not", "jz"); }
        if k == 4 { assert(X86_LOGIC@[4] == "shl"); reveal_strlit("shl"); assert("shl"@.len() != "jz"@.len()); lemma_words_differ("shl", "jz"); }
        if k == 5 { assert(X86_LOGIC@[5] == "shr"); reveal_strlit("shr"); assert("shr"@.len() != "jz"@.len()); lemma_words_differ("shr", "jz"); }
        if k == 6 { assert(X86_LOGIC@[6] == "sar"); reveal_strlit("sar"); assert("sar"@.len() != "jz"@.len()); lemma_words_differ("sar", "jz"); }
        if k == 7 { assert(X86_LOGIC@[7] == "rol"); reveal_strlit("rol"); assert("rol"@.len() != "jz"@.len()); lemma_words_differ("rol", "jz"); }
        if k == 8 { assert(X86_LOGIC@[8] == "ror"); reveal_strlit("ror"); assert("ror"@.len() != "jz"@.len()); lemma_words_differ("ror", "jz"); }
    }
}

proof fn lemma_x86_word_jnz()
    ensures
        crate::instruction::spec_categorize_x86("jnz".spec_bytes()) == Category::ControlFlow,
{
    reveal_strlit("jnz");
    assert(X86_CONTROL@[4] == "jnz");
    assert forall|k: int| 0 <= k < 6 implies #[trigger] X86_MOV@[k].spec_bytes() != "jnz".spec_bytes() by {
        if k == 0 { assert(X86_MOV@[0] == "mov"); reveal_strlit("mov"); assert("mov"@[0] != "jnz"@[0]); lemma_words_differ("mov", "jnz"); }
        if k == 1 { assert(X86_MOV@[1] == "movzx"); reveal_strlit("movzx"); assert("movzx"@.len() != "jnz"@.len()); lemma_words_differ("movzx", "jnz"); }
        if k == 2 { assert(X86_MOV@[2] == "movsx"); reveal_strlit("movsx"); assert("movsx"@.len() != "jnz"@.len()); lemma_words_differ("movsx", "jnz"); }
        if k == 3 { assert(X86_MOV@[3] == "lea"); reveal_strlit("lea"); assert("lea"@[0] != "jnz"@[0]); lemma_words_differ("lea", "jnz"); }
        if k == 4 { assert(X86_MOV@[4] == "push"); reveal_strlit("push"); assert("push"@.len() != "jnz"@.len()); lemma_words_differ("push", "jnz"); }
        if k == 5 { assert(X86_MOV@[5] == "pop"); reveal_strlit("pop"); assert("pop"@[0] != "jnz"@[0]); lemma_words_differ("pop", "jnz"); }
    }
    assert forall|k: int| 0 <= k < 8 implies #[trigger] X86_ARITHMETIC@[k].spec_bytes() != "jnz".spec_bytes() by {
        if k == 0 { assert(X86_ARITHMETIC@[0] == "add"); reveal_strlit("add"); assert("add"@[0] != "jnz"@[0]); lemma_words_differ("add", "jnz"); }
        if k == 1 { assert(X86_ARITHMETIC@[1] == "sub"); reveal_strlit("sub"); assert("sub"@[0] != "jnz"@[0]); lemma_words_differ("sub", "jnz"); }
        if k == 2 { assert(X86_ARITHMETIC@[2] == "mul"); reveal_strlit("mul"); assert("mul"@[0] != "jnz"@[0]); lemma_words_differ("mul", "jnz"); }
        if k == 3 { assert(X86_ARITHMETIC@[3] == "imul"); reveal_strlit("imul"); assert("imul"@.len() != "jnz"@.len()); lemma_words_differ("imul", "jnz"); }
        if k == 4 { assert(X86_ARITHMETIC@[4] == "div"); reveal_strlit("div"); assert("div"@[0] != "jnz"@[0]); lemma_words_differ("div", "jnz"); }
        if k == 5 { assert(X86_ARITHMETIC@[5] == "idiv"); reveal_strlit("idiv"); assert("idiv"@.len() != "jnz"@.len()); lemma_words_differ("idiv", "jnz"); }
        if k == 6 { assert(X86_ARITHMETIC@[6] == "inc"); reveal_strlit("inc"); assert("inc"@[0] != "jnz"@[0]); lemma_words_differ("inc", "jnz"); }
        if k == 7 { assert(X86_ARITHMETIC@[7] == "dec"); reveal_strlit("dec"); assert("dec"@[0] != "jnz"@[0]); lemma_words_differ("dec", "jnz"); }
    }
    assert forall|k: int| 0 <= k < 9 implies #[trigger] X86_LOGIC@[k].spec_bytes() != "jnz".spec_bytes() by {
        if k == 0 { assert(X86_LOGIC@[0] == "and"); reveal_strlit("and"); assert("and"@[0] != "jnz"@[0]); lemma_words_differ("and", "jnz"); }
        if k == 1 { assert(X86_LOGIC@[1] == "or"); reveal_strlit("or"); assert("or"@.len() != "jnz"@.len()); lemma_words_differ("or", "jnz"); }
        if k == 2 { assert(X86_LOGIC@[2] == "xor"); reveal_strlit("xor"); assert("xor"@[0] != "jnz"@[0]); lemma_words_differ("xor", "jnz"); }
        if k == 3 { assert(X86_LOGIC@[3] == "not"); reveal_strlit("not"); assert("not"@[0] != "jnz"@[0]); lemma_words_differ("not", "jnz"); }
        if k == 4 { assert(X86_LOGIC@[4] == "shl"); reveal_strlit("shl"); assert("shl"@[0] != "jnz"@[0]); lemma_words_differ("shl", "jnz"); }
        if k == 5 { assert(X86_LOGIC@[5] == "shr"); reveal_strlit("shr"); assert("shr"@[0] != "jnz"@[0]); lemma_words_differ("shr", "jnz"); }
        if k == 6 { assert(X86_LOGIC@[6] == "sar"); reveal_strlit("sar"); assert("sar"@[0] != "jnz"@[0]); lemma_words_differ("sar", "jnz"); }
        if k == 7 { assert(X86_LOGIC@[7] == "rol"); reveal_strlit("rol"); assert("rol"@[0] != "jnz"@[0]); lemma_words_differ("rol", "jnz"); }
        if k == 8 { assert(X86_LOGIC@[8] == "ror"); reveal_strlit("ror"); assert("ror"@[0] != "jnz"@[0]); lemma_words_differ("ror", "jnz"); }
    }
}

proof fn lemma_x86_word_jg()
    ensures
        crate::instruction::spec_categorize_x86("jg".spec_bytes()) == Category::ControlFlow,
{
    reveal_strlit("jg");
    assert(X86_CONTROL@[5] == "jg");
    assert forall|k: int| 0 <= k < 6 implies #[trigger] X86_MOV@[k].spec_bytes() != "jg".spec_bytes() by {
        if k == 0 { assert(X86_MOV@[0] == "mov"); reveal_strlit("mov"); assert("mov"@.len() != "jg"@.len()); lemma_words_differ("mov", "jg"); }
        if k == 1 { assert(X86_MOV@[1] == "movzx"); reveal_strlit("movzx"); assert("movzx"@.len() != "jg"@.len()); lemma_words_differ("movzx", "jg"); }
        if k == 2 { assert(X86_MOV@[2] == "movsx"); reveal_strlit("movsx"); assert("movsx"@.len() != "jg"@.len()); lemma_words_differ("movsx", "jg"); }
        if k == 3 { assert(X86_MOV@[3] == "lea"); reveal_strlit("lea"); assert("lea"@.len() != "jg"@.len()); lemma_words_differ("lea", "jg"); }
        if k == 4 { assert(X86_MOV@[4] == "push"); reveal_strlit("push"); assert("push"@.len() != "jg"@.len()); lemma_words_differ("push", "jg"); }
        if k == 5 { assert(X86_MOV@[5] == "pop"); reveal_strlit("pop"); assert("pop"@.len() != "jg"@.len()); lemma_words_differ("pop", "jg"); }
    }
    assert forall|k: int| 0 <= k < 8 implies #[trigger] X86_ARITHMETIC@[k].spec_bytes() != "jg".spec_bytes() by {
        if k == 0 { assert(X86_ARITHMETIC@[0] == "add"); reveal_strlit("add"); assert("add"@.len() != "jg"@.len()); lemma_words_differ("add", "jg"); }
        if k == 1 { assert(X86_ARITHMETIC@[1] == "sub"); reveal_strlit("sub"); assert("sub"@.len() != "jg"@.len()); lemma_words_differ("sub", "jg"); }
        if k == 2 { assert(X86_ARITHMETIC@[2] == "mul"); reveal_strlit("mul"); assert("mul"@.len() != "jg"@.len()); lemma_words_differ("mul", "jg"); }
        if k == 3 { assert(X86_ARITHMETIC@[3] == "imul"); reveal_strlit("imul"); assert("imul"@.len() != "jg"@.len()); lemma_words_differ("imul", "jg"); }
        if k == 4 { assert(X86_ARITHMETIC@[4] == "div"); reveal_strlit("div"); assert("div"@.len() != "jg"@.len()); lemma_words_differ("div", "jg"); }
        if k == 5 { assert(X86_ARITHMETIC@[5] == "idiv"); reveal_strlit("idiv"); assert("idiv"@.len() != "jg"@.len()); lemma_words_differ("idiv", "jg"); }
        if k == 6 { assert(X86_ARITHMETIC@[6] == "inc"); reveal_strlit("inc"); assert("inc"@.len() != "jg"@.len()); lemma_words_differ("inc", "jg"); }
        if k == 7 { assert(X86_ARITHMETIC@[7] == "dec"); reveal_strlit("dec"); assert("dec"@.len() != "jg"@.len()); lemma_words_differ("dec", "jg"); }
    }
    assert forall|k: int| 0 <= k < 9 implies #[trigger] X86_LOGIC@[k].spec_bytes() != "jg".spec_bytes() by {
        if k == 0 { assert(X86_LOGIC@[0] == "and"); reveal_strlit("and"); assert("and"@.len() != "jg"@.len()); lemma_words_differ("and", "jg"); }
        if k == 1 { assert(X86_LOGIC@[1] == "or"); reveal_strlit("or"); assert("or"@[0] != "jg"@[0]); lemma_words_differ("or", "jg"); }
        if k == 2 { assert(X86_LOGIC@[2] == "xor"); reveal_strlit("xor"); assert("xor"@.len() != "jg"@.len()); lemma_words_differ("xor", "jg"); }
        if k == 3 { assert(X86_LOGIC@[3] == "not"); reveal_strlit("not"); assert("not"@.len() != "jg"@.len()); lemma_words_differ("not", "jg"); }
        if k == 4 { assert(X86_LOGIC@[4] == "shl"); reveal_strlit("shl"); assert("shl"@.len() != "jg"@.len()); lemma_words_differ("shl", "jg"); }
        if k == 5 { assert(X86_LOGIC@[5] == "shr"); reveal_strlit("shr"); assert("shr"@.len() != "jg"@.len()); lemma_words_differ("shr", "jg"); }
        if k == 6 { assert(X86_LOGIC@[6] == "sar"); reveal_strlit("sar"); assert("sar"@.len() != "jg"@.len()); lemma_words_differ("sar", "jg"); }
        if k == 7 { assert(X86_LOGIC@[7] == "rol"); reveal_strlit("rol"); assert("rol"@.len() != "jg"@.len()); lemma_words_differ("rol", "jg"); }
        if k == 8 { assert(X86_LOGIC@[8] == "ror"); reveal_strlit("ror"); assert("ror"@.len() != "jg"@.len()); lemma_words_differ("ror", "jg"); }
    }
}

proof fn lemma_x86_word_jl()
    ensures
        crate::instruction::spec_categorize_x86("jl".spec_bytes()) == Category::ControlFlow,
{
    reveal_strlit("jl");
    assert(X86_CONTROL@[6] == "jl");
    assert forall|k: int| 0 <= k < 6 implies #[trigger] X86_MOV@[k].spec_bytes() != "jl".spec_bytes() by {
        if k == 0 { assert(X86_MOV@[0] == "mov"); reveal_strlit("mov"); assert("mov"@.len() != "jl"@.len()); lemma_words_differ("mov", "jl"); }
        if k == 1 { assert(X86_MOV@[1] == "movzx"); reveal_strlit("movzx"); assert("movzx"@.len() != "jl"@.len()); lemma_words_differ("movzx", "jl"); }
        if k == 2 { assert(X86_MOV@[2] == "movsx"); reveal_strlit("movsx"); assert("movsx"@.len() != "jl"@.len()); lemma_words_differ("movsx", "jl"); }
        if k == 3 { assert(X86_MOV@[3] == "lea"); reveal_strlit("lea"); assert("lea"@.len() != "jl"@.len()); lemma_words_differ("lea", "jl"); }
        if k == 4 { assert(X86_MOV@[4] == "push"); reveal_strlit("push"); assert("push"@.len() != "jl"@.len()); lemma_words_differ("push", "jl"); }
        if k == 5 { assert(X86_MOV@[5] == "pop"); reveal_strlit("pop"); assert("pop"@.len() != "jl"@.len()); lemma_words_differ("pop", "jl"); }
    }
    assert forall|k: int| 0 <= k < 8 implies #[trigger] X86_ARITHMETIC@[k].spec_bytes() != "jl".spec_bytes() by {
        if k == 0 { assert(X86_ARITHMETIC@[0] == "add"); reveal_strlit("add"); assert("add"@.len() != "jl"@.len()); lemma_words_differ("add", "jl"); }
        if k == 1 { assert(X86_ARITHMETIC@[1] == "sub"); reveal_strlit("sub"); assert("sub"@.len() != "jl"@.len()); lemma_words_differ("sub", "jl"); }
        if k == 2 { assert(X86_ARITHMETIC@[2] == "mul"); reveal_strlit("mul"); assert("mul"@.len() != "jl"@.len()); lemma_words_differ("mul", "jl"); }
        if k == 3 { assert(X86_ARITHMETIC@[3] == "imul"); reveal_strlit("imul"); assert("imul"@.len() != "jl"@.len()); lemma_words_differ("imul", "jl"); }
        if k == 4 { assert(X86_ARITHMETIC@[4] == "div"); reveal_strlit("div"); assert("div"@.len() != "jl"@.len()); lemma_words_differ("div", "jl"); }
        if k == 5 { assert(X86_ARITHMETIC@[5] == "idiv"); reveal_strlit("idiv"); assert("idiv"@.len() != "jl"@.len()); lemma_words_differ("idiv", "jl"); }
        if k == 6 { assert(X86_ARITHMETIC@[6] == "inc"); reveal_strlit("inc"); assert("inc"@.len() != "jl"@.len()); lemma_words_differ("inc", "jl"); }
        if k == 7 { assert(X86_ARITHMETIC@[7] == "dec"); reveal_strlit("dec"); assert("dec"@.len() != "jl"@.len()); lemma_words_differ("dec", "jl"); }
    }
    assert forall|k: int| 0 <= k < 9 implies #[trigger] X86_LOGIC@[k].spec_bytes() != "jl".spec_bytes() by {
        if k == 0 { assert(X86_LOGIC@[0] == "and"); reveal_strlit("and"); assert("and"@.len() != "jl"@.len()); lemma_words_differ("and", "jl"); }
        if k == 1 { assert(X86_LOGIC@[1] == "or"); reveal_strlit("or"); assert("or"@[0] != "jl"@[0]); lemma_words_differ("or", "jl"); }
        if k == 2 { assert(X86_LOGIC@[2] == "xor"); reveal_strlit("xor"); assert("xor"@.len() != "jl"@.len()); lemma_words_differ("xor", "jl"); }
        if k == 3 { assert(X86_LOGIC@[3] == "not"); reveal_strlit("not"); assert("not"@.len() != "jl"@.len()); lemma_words_differ("not", "jl"); }
        if k == 4 { assert(X86_LOGIC@[4] == "shl"); reveal_strlit("shl"); assert("shl"@.len() != "jl"@.len()); lemma_words_differ("shl", "jl"); }
        if k == 5 { assert(X86_LOGIC@[5] == "shr"); reveal_strlit("shr"); assert("shr"@.len() != "jl"@.len()); lemma_words_differ("shr", "jl"); }
        if k == 6 { assert(X86_LOGIC@[6] == "sar"); reveal_strlit("sar"); assert("sar"@.len() != "jl"@.len()); lemma_words_differ("sar", "jl"); }
        if k == 7 { assert(X86_LOGIC@[7] == "rol"); reveal_strlit("rol"); assert("rol"@.len() != "jl"@.len()); lemma_words_differ("rol", "jl"); }
        if k == 8 { assert(X86_LOGIC@[8] == "ror"); reveal_strlit("ror"); assert("ror"@.len() != "jl"@.len()); lemma_words_differ("ror", "jl"); }
    }
}

proof fn lemma_x86_word_jge()
    ensures
        crate::instruction::spec_categorize_x86("jge".spec_bytes()) == Category::ControlFlow,
{
    reveal_strlit("jge");
    assert(X86_CONTROL@[7] == "jge");
    assert forall|k: int| 0 <= k < 6 implies #[trigger] X86_MOV@[k].spec_bytes() != "jge".spec_bytes() by {
        if k == 0 { assert(X86_MOV@[0] == "mov"); reveal_strlit("mov"); assert("mov"@[0] != "jge"@[0]); lemma_words_differ("mov", "jge"); }
        if k == 1 { assert(X86_MOV@[1] == "movzx"); reveal_strlit("movzx"); assert("movzx"@.len() != "jge"@.len()); lemma_words_differ("movzx", "jge"); }
        if k == 2 { assert(X86_MOV@[2] == "movsx"); reveal_strlit("movsx"); assert("movsx"@.len() != "jge"@.len()); lemma_words_differ("movsx", "jge"); }
        if k == 3 { assert(X86_MOV@[3] == "lea"); reveal_strlit("lea"); assert("lea"@[0] != "jge"@[0]); lemma_words_differ("lea", "jge"); }
        if k == 4 { assert(X86_MOV@[4] == "push"); reveal_strlit("push"); assert("push"@.len() != "jge"@.len()); lemma_words_differ("push", "jge"); }
        if k == 5 { assert(X86_MOV@[5] == "pop"); reveal_strlit("pop"); assert("pop"@[0] != "jge"@[0]); lemma_words_differ("pop", "jge"); }
    }
    assert forall|k: int| 0 <= k < 8 implies #[trigger] X86_ARITHMETIC@[k].spec_bytes() != "jge".spec_bytes() by {
        if k == 0 { assert(X86_ARITHMETIC@[0] == "add"); reveal_strlit("add"); assert("add"@[0] != "jge"@[0]); lemma_words_differ("add", "jge"); }
        if k == 1 { assert(X86_ARITHMETIC@[1] == "sub"); reveal_strlit("sub"); assert("sub"@[0] != "jge"@[0]); lemma_words_differ("sub", "jge"); }
        if k == 2 { assert(X86_ARITHMETIC@[2] == "mul"); reveal_strlit("mul"); assert("mul"@[0] != "jge"@[0]); lemma_words_differ("mul", "jge"); }
        if k == 3 { assert(X86_ARITHMETIC@[3] == "imul"); reveal_strlit("imul"); assert("imul"@.len() != "jge"@.len()); lemma_words_differ("imul", "jge"); }
        if k == 4 { assert(X86_ARITHMETIC@[4] == "div"); reveal_strlit("div"); assert("div"@[0] != "jge"@[0]); lemma_words_differ("div", "jge"); }
        if k == 5 { assert(X86_ARITHMETIC@[5] == "idiv"); reveal_strlit("idiv"); assert("idiv"@.len() != "jge"@.len()); lemma_words_differ("idiv", "jge"); }
        if k == 6 { assert(X86_ARITHMETIC@[6] == "inc"); reveal_strlit("inc"); assert("inc"@[0] != "jge"@[0]); lemma_words_differ("inc", "jge"); }
        if k == 7 { assert(X86_ARITHMETIC@[7] == "dec"); reveal_strlit("dec"); assert("dec"@[0] != "jge"@[0]); lemma_words_differ("dec", "jge"); }
    }
    assert forall|k: int| 0 <= k < 9 implies #[trigger] X86_LOGIC@[k].spec_bytes() != "jge".spec_bytes() by {
        if k == 0 { assert(X86_LOGIC@[0] == "and"); reveal_strlit("and"); assert("and"@[0] != "jge"@[0]); lemma_words_differ("and", "jge"); }
        if k == 1 { assert(X86_LOGIC@[1] == "or"); reveal_strlit("or"); assert("or"@.len() != "jge"@.len()); lemma_words_differ("or", "jge"); }
        if k == 2 { assert(X86_LOGIC@[2] == "xor"); reveal_strlit("xor"); assert("xor"@[0] != "jge"@[0]); lemma_words_differ("xor", "jge"); }
        if k == 3 { assert(X86_LOGIC@[3] == "not"); reveal_strlit("not"); assert("not"@[0] != "jge"@[0]); lemma_words_differ("not", "jge"); }
        if k == 4 { assert(X86_LOGIC@[4] == "shl"); reveal_strlit("shl"); assert("shl"@[0] != "jge"@[0]); lemma_words_differ("shl", "jge"); }
        if k == 5 { assert(X86_LOGIC@[5] == "shr"); reveal_strlit("shr"); assert("shr"@[0] != "jge"@[0]); lemma_words_differ("shr", "jge"); }
        if k == 6 { assert(X86_LOGIC@[6] == "sar"); reveal_strlit("sar"); assert("sar"@[0] != "jge"@[0]); lemma_words_differ("sar", "jge"); }
        if k == 7 { assert(X86_LOGIC@[7] == "rol"); reveal_strlit("rol"); assert("rol"@[0] != "jge"@[0]); lemma_words_differ("rol", "jge"); }
        if k == 8 { assert(X86_LOGIC@[8] == "ror"); reveal_strlit("ror"); assert("ror"@[0] != "jge"@[0]); lemma_words_differ("ror", "jge"); }
    }
}

proof fn lemma_x86_word_jle()
    ensures
        crate::instruction::spec_categorize_x86("jle".spec_bytes()) == Category::ControlFlow,
{
    reveal_strlit("jle");
    assert(X86_CONTROL@[8] == "jle");
    assert forall|k: int| 0 <= k < 6 implies #[trigger] X86_MOV@[k].spec_bytes() != "jle".spec_bytes() by {
        if k == 0 { assert(X86_MOV@[0] == "mov"); reveal_strlit("mov"); assert("mov"@[0] != "jle"@[0]); lemma_words_differ("mov", "jle"); }
        if k == 1 { assert(X86_MOV@[1] == "movzx"); reveal_strlit("movzx"); assert("movzx"@.len() != "jle"@.len()); lemma_words_differ("movzx", "jle"); }
        if k == 2 { assert(X86_MOV@[2] == "movsx"); reveal_strlit("movsx"); assert("movsx"@.len() != "jle"@.len()); lemma_words_differ("movsx", "jle"); }
        if k == 3 { assert(X86_MOV@[3] == "lea"); reveal_strlit("lea"); assert("lea"@[0] != "jle"@[0]); lemma_words_differ("lea", "jle"); }
        if k == 4 { assert(X86_MOV@[4] == "push"); reveal_strlit("push"); assert("push"@.len() != "jle"@.len()); lemma_words_differ("push", "jle"); }
        if k == 5 { assert(X86_MOV@[5] == "pop"); reveal_strlit("pop"); assert("pop"@[0] != "jle"@[0]); lemma_words_differ("pop", "jle"); }
    }
    assert forall|k: int| 0 <= k < 8 implies #[trigger] X86_ARITHMETIC@[k].spec_bytes() != "jle".spec_bytes() by {
        if k == 0 { assert(X86_ARITHMETIC@[0] == "add"); reveal_strlit("add"); assert("add"@[0] != "jle"@[0]); lemma_words_differ("add", "jle"); }
        if k == 1 { assert(X86_ARITHMETIC@[1] == "sub"); reveal_strlit("sub"); assert("sub"@[0] != "jle"@[0]); lemma_words_differ("sub", "jle"); }
        if k == 2 { assert(X86_ARITHMETIC@[2] == "mul"); reveal_strlit("mul"); assert("mul"@[0] != "jle"@[0]); lemma_words_differ("mul", "jle"); }
        if k == 3 { assert(X86_ARITHMETIC@[3] == "imul"); reveal_strlit("imul"); assert("imul"@.len() != "jle"@.len()); lemma_words_differ("imul", "jle"); }
        if k == 4 { assert(X86_ARITHMETIC@[4] == "div"); reveal_strlit("div"); assert("div"@[0] != "jle"@[0]); lemma_words_differ("div", "jle"); }
        if k == 5 { assert(X86_ARITHMETIC@[5] == "idiv"); reveal_strlit("idiv"); assert("idiv"@.len() != "jle"@.len()); lemma_words_differ("idiv", "jle"); }
        if k == 6 { assert(X86_ARITHMETIC@[6] == "inc"); reveal_strlit("inc"); assert("inc"@[0] != "jle"@[0]); lemma_words_differ("inc", "jle"); }
        if k == 7 { assert(X86_ARITHMETIC@[7] == "dec"); reveal_strlit("dec"); assert("dec"@[0] != "jle"@[0]); lemma_words_differ("dec", "jle"); }
    }
    assert forall|k: int| 0 <= k < 9 implies #[trigger] X86_LOGIC@[k].spec_bytes() != "jle".spec_bytes() by {
        if k == 0 { assert(X86_LOGIC@[0] == "and"); reveal_strlit("and"); assert("and"@[0] != "jle"@[0]); lemma_words_differ("and", "jle"); }
        if k == 1 { assert(X86_LOGIC@[1] == "or"); reveal_strlit("or"); assert("or"@.len() != "jle"@.len()); lemma_words_differ("or", "jle"); }
        if k == 2 { assert(X86_LOGIC@[2] == "xor"); reveal_strlit("xor"); assert("xor"@[0] != "jle"@[0]); lemma_words_differ("xor", "jle"); }
        if k == 3 { assert(X86_LOGIC@[3] == "not"); reveal_strlit("not"); assert("not"@[0] != "jle"@[0]); lemma_words_differ("not", "jle"); }
        if k == 4 { assert(X86_LOGIC@[4] == "shl"); reveal_strlit("shl"); assert("shl"@[0] != "jle"@[0]); lemma_words_differ("shl", "jle"); }
        if k == 5 { assert(X86_LOGIC@[5] == "shr"); reveal_strlit("shr"); assert("shr"@[0] != "jle"@[0]); lemma_words_differ("shr", "jle"); }
        if k == 6 { assert(X86_LOGIC@[6] == "sar"); reveal_strlit("sar"); assert("sar"@[0] != "jle"@[0]); lemma_words_differ("sar", "jle"); }
        if k == 7 { assert(X86_LOGIC@[7] == "rol"); reveal_strlit("rol"); assert("rol"@[0] != "jle"@[0]); lemma_words_differ("rol", "jle"); }
        if k == 8 { assert(X86_LOGIC@[8] == "ror"); reveal_strlit("ror"); assert("ror"@[0] != "jle"@[0]); lemma_words_differ("ror", "jle"); }
    }
}

proof fn lemma_x86_word_call()
    ensures
        crate::instruction::spec_categorize_x86("call".spec_bytes()) == Category::ControlFlow,
{
    reveal_strlit("call");
    assert(X86_CONTROL@[9] == "call");
    assert forall|k: int| 0 <= k < 6 implies #[trigger] X86_MOV@[k].spec_bytes() != "call".spec_bytes() by {
        if k == 0 { assert(X86_MOV@[0] == "mov"); reveal_strlit("mov"); assert("mov"@.len() != "call"@.len()); lemma_words_differ("mov", "call"); }
        if k == 1 { assert(X86_MOV@[1] == "movzx"); reveal_strlit("movzx"); assert("movzx"@.len() != "call"@.len()); lemma_words_differ("movzx", "call"); }
        if k == 2 { assert(X86_MOV@[2] == "movsx"); reveal_strlit("movsx"); assert("movsx"@.len() != "call"@.len()); lemma_words_differ("movsx", "call"); }
        if k == 3 { assert(X86_MOV@[3] == "lea"); reveal_strlit("lea"); assert("lea"@.len() != "call"@.len()); lemma_words_differ("lea", "call"); }
        if k == 4 { assert(X86_MOV@[4] == "push"); reveal_strlit("push"); assert("push"@[0] != "call"@[0]); lemma_words_differ("push", "call"); }
        if k == 5 { assert(X86_MOV@[5] == "pop"); reveal_strlit("pop"); assert("pop"@.len() != "call"@.len()); lemma_words_differ("pop", "call"); }
    }
    assert forall|k: int| 0 <= k < 8 implies #[trigger] X86_ARITHMETIC@[k].spec_bytes() != "call".spec_bytes() by {
        if k == 0 { assert(X86_ARITHMETIC@[0] == "add"); reveal_strlit("add"); assert("add"@.len() != "call"@.len()); lemma_words_differ("add", "call"); }
        if k == 1 { assert(X86_ARITHMETIC@[1] == "sub"); reveal_strlit("sub"); assert("sub"@.len() != "call"@.len()); lemma_words_differ("sub", "call"); }
        if k == 2 { assert(X86_ARITHMETIC@[2] == "mul"); reveal_strlit("mul"); assert("mul"@.len() != "call"@.len()); lemma_words_differ("mul", "call"); }
        if k == 3 { assert(X86_ARITHMETIC@[3] == "imul"); reveal_strlit("imul"); assert("imul"@[0] != "call"@[0]); lemma_words_differ("imul", "call"); }
        if k == 4 { assert(X86_ARITHMETIC@[4] == "div"); reveal_strlit("div"); assert("div"@.len() != "call"@.len()); lemma_words_differ("div", "call"); }
        if k == 5 { assert(X86_ARITHMETIC@[5] == "idiv"); reveal_strlit("idiv"); assert("idiv"@[0] != "call"@[0]); lemma_words_differ("idiv", "call"); }
        if k == 6 { assert(X86_ARITHMETIC@[6] == "inc"); reveal_strlit("inc"); assert("inc"@.len() != "call"@.len()); lemma_words_differ("inc", "call"); }
        if k == 7 { assert(X86_ARITHMETIC@[7] == "dec"); reveal_strlit("dec"); assert("dec"@.len() != "call"@.len()); lemma_words_differ("dec", "call"); }
    }
    assert forall|k: int| 0 <= k < 9 implies #[trigger] X86_LOGIC@[k].spec_bytes() != "call".spec_bytes() by {
        if k == 0 { assert(X86_LOGIC@[0] == "and"); reveal_strlit("and"); assert("and"@.len() != "call"@.len()); lemma_words_differ("and", "call"); }
        if k == 1 { assert(X86_LOGIC@[1] == "or"); reveal_strlit("or"); assert("or"@.len() != "call"@.len()); lemma_words_differ("or", "call"); }
        if k == 2 { assert(X86_LOGIC@[2] == "xor"); reveal_strlit("xor"); assert("xor"@.len() != "call"@.len()); lemma_words_differ("xor", "call"); }
        if k == 3 { assert(X86_LOGIC@[3] == "not"); reveal_strlit("not"); assert("not"@.len() != "call"@.len()); lemma_words_differ("not", "call"); }
        if k == 4 { assert(X86_LOGIC@[4] == "shl"); reveal_strlit("shl"); assert("shl"@.len() != "call"@.len()); lemma_words_differ("shl", "call"); }
        if k == 5 { assert(X86_LOGIC@[5] == "shr"); reveal_strlit("shr"); assert("shr"@.len() != "call"@.len()); lemma_words_differ("shr", "call"); }
        if k == 6 { assert(X86_LOGIC@[6] == "sar"); reveal_strlit("sar"); assert("sar"@.len() != "call"@.len()); lemma_words_differ("sar", "call"); }
        if k == 7 { assert(X86_LOGIC@[7] == "rol"); reveal_strlit("rol"); assert("rol"@.len() != "call"@.len()); lemma_words_differ("rol", "call"); }
        if k == 8 { assert(X86_LOGIC@[8] == "ror"); reveal_strlit("ror"); assert("ror"@.len() != "call"@.len()); lemma_words_differ("ror", "call"); }
    }
}

proof fn lemma_x86_word_ret()
    ensures
        crate::instruction::spec_categorize_x86("ret".spec_bytes()) == Category::ControlFlow,
{
    reveal_strlit("ret");
    assert(X86_CONTROL@[10] == "ret");
    assert forall|k: int| 0 <= k < 6 implies #[trigger] X86_MOV@[k].spec_bytes() != "ret".spec_bytes() by {
        if k == 0 { assert(X86_MOV@[0] == "mov"); reveal_strlit("mov"); assert("mov"@[0] != "ret"@[0]); lemma_words_differ("mov", "ret"); }
        if k == 1 { assert(X86_MOV@[1] == "movzx"); reveal_strlit("movzx"); assert("movzx"@.len() != "ret"@.len()); lemma_words_differ("movzx", "ret"); }
        if k == 2 { assert(X86_MOV@[2] == "movsx"); reveal_strlit("movsx"); assert("movsx"@.len() != "ret"@.len()); lemma_words_differ("movsx", "ret"); }
        if k == 3 { assert(X86_MOV@[3] == "lea"); reveal_strlit("lea"); assert("lea"@[0] != "ret"@[0]); lemma_words_differ("lea", "ret"); }
        if k == 4 { assert(X86_MOV@[4] == "push"); reveal_strlit("push"); assert("push"@.len() != "ret"@.len()); lemma_words_differ("push", "ret"); }
        if k == 5 { assert(X86_MOV@[5] == "pop"); reveal_strlit("pop"); assert("pop"@[0] != "ret"@[0]); lemma_words_differ("pop", "ret"); }
    }
    assert forall|k: int| 0 <= k < 8 implies #[trigger] X86_ARITHMETIC@[k].spec_bytes() != "ret".spec_bytes() by {
        if k == 0 { assert(X86_ARITHMETIC@[0] == "add"); reveal_strlit("add"); assert("add"@[0] != "ret"@[0]); lemma_words_differ("add", "ret"); }
        if k == 1 { assert(X86_ARITHMETIC@[1] == "sub"); reveal_strlit("sub"); assert("sub"@[0] != "ret"@[0]); lemma_words_differ("sub", "ret"); }
        if k == 2 { assert(X86_ARITHMETIC@[2] == "mul"); reveal_strlit("mul"); assert("mul"@[0] != "ret"@[0]); lemma_words_differ("mul", "ret"); }
        if k == 3 { assert(X86_ARITHMETIC@[3] == "imul"); reveal_strlit("imul"); assert("imul"@.len() != "ret"@.len()); lemma_words_differ("imul", "ret"); }
        if k == 4 { assert(X86_ARITHMETIC@[4] == "div"); reveal_strlit("div"); assert("div"@[0] != "ret"@[0]); lemma_words_differ("div", "ret"); }
        if k == 5 { assert(X86_ARITHMETIC@[5] == "idiv"); reveal_strlit("idiv"); assert("idiv"@.len() != "ret"@.len()); lemma_words_differ("idiv", "ret"); }
        if k == 6 { assert(X86_ARITHMETIC@[6] == "inc"); reveal_strlit("inc"); assert("inc"@[0] != "ret"@[0]); lemma_words_differ("inc", "ret"); }
        if k == 7 { assert(X86_ARITHMETIC@[7] == "dec"); reveal_strlit("dec"); assert("dec"@[0] != "ret"@[0]); lemma_words_differ("dec", "ret"); }
    }
    assert forall|k: int| 0 <= k < 9 implies #[trigger] X86_LOGIC@[k].spec_bytes() != "ret".spec_bytes() by {
        if k == 0 { assert(X86_LOGIC@[0] == "and"); reveal_strlit("and"); assert("and"@[0] != "ret"@[0]); lemma_words_differ("and", "ret"); }
        if k == 1 { assert(X86_LOGIC@[1] == "or"); reveal_strlit("or"); assert("or"@.len() != "ret"@.len()); lemma_words_differ("or", "ret"); }
        if k == 2 { assert(X86_LOGIC@[2] == "xor"); reveal_strlit("xor"); assert("xor"@[0] != "ret"@[0]); lemma_words_differ("xor", "ret"); }
        if k == 3 { assert(X86_LOGIC@[3] == "not"); reveal_strlit("not"); assert("not"@[0] != "ret"@[0]); lemma_words_differ("not", "ret"); }
        if k == 4 { assert(X86_LOGIC@[4] == "shl"); reveal_strlit("shl"); assert("shl"@[0] != "ret"@[0]); lemma_words_differ("shl", "ret"); }
        if k == 5 { assert(X86_LOGIC@[5] == "shr"); reveal_strlit("shr"); assert("shr"@[0] != "ret"@[0]); lemma_words_differ("shr", "ret"); }
        if k == 6 { assert(X86_LOGIC@[6] == "sar"); reveal_strlit("sar"); assert("sar"@[0] != "ret"@[0]); lemma_words_differ("sar", "ret"); }
        if k == 7 { assert(X86_LOGIC@[7] == "rol"); reveal_strlit("rol"); assert("rol"@[1] != "ret"@[1]); lemma_words_differ("rol", "ret"); }
        if k == 8 { assert(X86_LOGIC@[8] == "ror"); reveal_strlit("ror"); assert("ror"@[1] != "ret"@[1]); lemma_words_differ("ror", "ret"); }
    }
}

proof fn lemma_x86_word_loop()
    ensures
        crate::instruction::spec_categorize_x86("loop".spec_bytes()) == Category::ControlFlow,
{
    reveal_strlit("loop");
    assert(X86_CONTROL@[11] == "loop");
    assert forall|k: int| 0 <= k < 6 implies #[trigger] X86_MOV@[k].spec_bytes() != "loop".spec_bytes() by {
        if k == 0 { assert(X86_MOV@[0] == "mov"); reveal_strlit("mov"); assert("mov"@.len() != "loop"@.len()); lemma_words_differ("mov", "loop"); }
        if k == 1 { assert(X86_MOV@[1] == "movzx"); reveal_strlit("movzx"); assert("movzx"@.len() != "loop"@.len()); lemma_words_differ("movzx", "loop"); }
        if k == 2 { assert(X86_MOV@[2] == "movsx"); reveal_strlit("movsx"); assert("movsx"@.len() != "loop"@.len()); lemma_words_differ("movsx", "loop"); }
        if k == 3 { assert(X86_MOV@[3] == "lea"); reveal_strlit("lea"); assert("lea"@.len() != "loop"@.len()); lemma_words_differ("lea", "loop"); }
        if k == 4 { assert(X86_MOV@[4] == "push"); reveal_strlit("push"); assert("push"@[0] != "loop"@[0]); lemma_words_differ("push", "loop"); }
        if k == 5 { assert(X86_MOV@[5] == "pop"); reveal_strlit("pop"); assert("pop"@.len() != "loop"@.len()); lemma_words_differ("pop", "loop"); }
    }
    assert forall|k: int| 0 <= k < 8 implies #[trigger] X86_ARITHMETIC@[k].spec_bytes() != "loop".spec_bytes() by {
        if k == 0 { assert(X86_ARITHMETIC@[0] == "add"); reveal_strlit("add"); assert("add"@.len() != "loop"@.len()); lemma_words_differ("add", "loop"); }
        if k == 1 { assert(X86_ARITHMETIC@[1] == "sub"); reveal_strlit("sub"); assert("sub"@.len() != "loop"@.len()); lemma_words_differ("sub", "loop"); }
        if k == 2 { assert(X86_ARITHMETIC@[2] == "mul"); reveal_strlit("mul"); assert("mul"@.len() != "loop"@.len()); lemma_words_differ("mul", "loop"); }
        if k == 3 { assert(X86_ARITHMETIC@[3] == "imul"); reveal_strlit("imul"); assert("imul"@[0] != "loop"@[0]); lemma_words_differ("imul", "loop"); }
        if k == 4 { assert(X86_ARITHMETIC@[4] == "div"); reveal_strlit("div"); assert("div"@.len() != "loop"@.len()); lemma_words_differ("div", "loop"); }
        if k == 5 { assert(X86_ARITHMETIC@[5] == "idiv"); reveal_strlit("idiv"); assert("idiv"@[0] != "loop"@[0]); lemma_words_differ("idiv", "loop"); }
        if k == 6 { assert(X86_ARITHMETIC@[6] == "inc"); reveal_strlit("inc"); assert("inc"@.len() != "loop"@.len()); lemma_words_differ("inc", "loop"); }
        if k == 7 { assert(X86_ARITHMETIC@[7] == "dec"); reveal_strlit("dec"); assert("dec"@.len() != "loop"@.len()); lemma_words_differ("dec", "loop"); }
    }
    assert forall|k: int| 0 <= k < 9 implies #[trigger] X86_LOGIC@[k].spec_bytes() != "loop".spec_bytes() by {
        if k == 0 { assert(X86_LOGIC@[0] == "and"); reveal_strlit("and"); assert("and"@.len() != "loop"@.len()); lemma_words_differ("and", "loop"); }
        if k == 1 { assert(X86_LOGIC@[1] == "or"); reveal_strlit("or"); assert("or"@.len() != "loop"@.len()); lemma_words_differ("or", "loop"); }
        if k == 2 { assert(X86_LOGIC@[2] == "xor"); reveal_strlit("xor"); assert("xor"@.len() != "loop"@.len()); lemma_words_differ("xor", "loop"); }
        if k == 3 { assert(X86_LOGIC@[3] == "not"); reveal_strlit("not"); assert("not"@.len() != "loop"@.len()); lemma_words_differ("not", "loop"); }
        if k == 4 { assert(X86_LOGIC@[4] == "shl"); reveal_strlit("shl"); assert("shl"@.len() != "loop"@.len()); lemma_words_differ("shl", "loop"); }
        if k == 5 { assert(X86_LOGIC@[5] == "shr"); reveal_strlit("shr"); assert("shr"@.len() != "loop"@.len()); lemma_words_differ("shr", "loop"); }
        if k == 6 { assert(X86_LOGIC@[6] == "sar"); reveal_strlit("sar"); assert("sar"@.len() != "loop"@.len()); lemma_words_differ("sar", "loop"); }
        if k == 7 { assert(X86_LOGIC@[7] == "rol"); reveal_strlit("rol"); assert("rol"@.len() != "loop"@.len()); lemma_words_differ("rol", "loop"); }
        if k == 8 { assert(X86_LOGIC@[8] == "ror"); reveal_strlit("ror"); assert("ror"@.len() != "loop"@.len()); lemma_words_differ("ror", "loop"); }
    }
}

proof fn lemma_x86_controlflow_words(m: Seq<u8>)
    requires
        m == "jmp".spec_bytes() || m == "je".spec_bytes() || m == "jne".spec_bytes() || m == "jz".spec_bytes() || m == "jnz".spec_bytes() || m == "jg".spec_bytes() || m == "jl".spec_bytes() || m == "jge".spec_bytes() || m == "jle".spec_bytes() || m == "call".spec_bytes() || m == "ret".spec_bytes() || m == "loop".spec_bytes(),
    ensures
        crate::instruction::spec_categorize_x86(m) == Category::ControlFlow,
        crate::instruction::spec_categorize(m, ArchKind::X86) == Category::ControlFlow,
        crate::instruction::listing_counts(seq![Some(m)], ArchKind::X86) == (1int, 0int, 0int, 0int, 1int, 0int),
        crate::instruction::spec_categorize(m, ArchKind::X86_64) == Category::ControlFlow,
        crate::instruction::listing_counts(seq![Some(m)], ArchKind::X86_64) == (1int, 0int, 0int, 0int, 1int, 0int),
{
    if m == "jmp".spec_bytes() {
        lemma_x86_word_jmp();
        reveal_strlit("jmp");
        lemma_lower_fixed("jmp");
    }
    if m == "je".spec_bytes() {
        lemma_x86_word_je();
        reveal_strlit("je");
        lemma_lower_fixed("je");
    }
    if m == "jne".spec_bytes() {
        lemma_x86_word_jne();
        reveal_strlit("jne");
        lemma_lower_fixed("jne");
    }
    if m == "jz".spec_bytes() {
        lemma_x86_word_jz();
        reveal_strlit("jz");
        lemma_lower_fixed("jz");
    }
    if m == "jnz".spec_bytes() {
        lemma_x86_word_jnz();
        reveal_strlit("jnz");
        lemma_lower_fixed("jnz");
    }
    if m == "jg".spec_bytes() {
        lemma_x86_word_jg();
        reveal_strlit("jg");
        lemma_lower_fixed("jg");
    }
    if m == "jl".spec_bytes() {
        lemma_x86_word_jl();
        reveal_strlit("jl");
        lemma_lower_fixed("jl");
    }
    if m == "jge".spec_bytes() {
        lemma_x86_word_jge();
        reveal_strlit("jge");
        lemma_lower_fixed("jge");
    }
    if m == "jle".spec_bytes() {
        lemma_x86_word_jle();
        reveal_strlit("jle");
        lemma_lower_fixed("jle");
    }
    if m == "call".spec_bytes() {
        lemma_x86_word_call();
        reveal_strlit("call");
        lemma_lower_fixed("call");
    }
    if m == "ret".spec_bytes() {
        lemma_x86_word_ret();
        reveal_strlit("ret");
        lemma_lower_fixed("ret");
    }
    if m == "loop".spec_bytes() {
        lemma_x86_word_loop();
        reveal_strlit("loop");
        lemma_lower_fixed("loop");
    }
    assert(seq![Some(m)].drop_last() =~= Seq::<Option<Seq<u8>>>::empty());
    assert(seq![Some(m)].last() == Some(m));
    assert(crate::instruction::listing_counts(Seq::<Option<Seq<u8>>>::empty(), ArchKind::X86) == (0int, 0int, 0int, 0int, 0int, 0int));
    assert(crate::instruction::listing_counts(Seq::<Option<Seq<u8>>>::empty(), ArchKind::X86_64) == (0int, 0int, 0int, 0int, 0int, 0int));
}

proof fn lemma_x86_word_syscall()
    ensures
        crate::instruction::spec_categorize_x86("syscall".spec_bytes()) == Category::System,
{
    reveal_strlit("syscall");
    assert(X86_SYSTEM@[0] == "syscall");
    assert forall|k: int| 0 <= k < 6 implies #[trigger] X86_MOV@[k].spec_bytes() != "syscall".spec_bytes() by {
        if k == 0 { assert(X86_MOV@[0] == "mov"); reveal_strlit("mov"); assert("mov"@.len() != "syscall"@.len()); lemma_words_differ("mov", "syscall"); }
        if k == 1 { assert(X86_MOV@[1] == "movzx"); reveal_strlit("movzx"); assert("movzx"@.len() != "syscall"@.len()); lemma_words_differ("movzx", "syscall"); }
        if k == 2 { assert(X86_MOV@[2] == "movsx"); reveal_strlit("movsx"); assert("movsx"@.len() != "syscall"@.len()); lemma_words_differ("movsx", "syscall"); }
        if k == 3 { assert(X86_MOV@[3] == "lea"); reveal_strlit("lea"); assert("lea"@.len() != "syscall"@.len()); lemma_words_differ("lea", "syscall"); }
        if k == 4 { assert(X86_MOV@[4] == "push"); reveal_strlit("push"); assert("push"@.len() != "syscall"@.len()); lemma_words_differ("push", "syscall"); }
        if k == 5 { assert(X86_MOV@[5] == "pop"); reveal_strlit("pop"); assert("pop"@.len() != "syscall"@.len()); lemma_words_differ("pop", "syscall"); }
    }
    assert forall|k: int| 0 <= k < 8 implies #[trigger] X86_ARITHMETIC@[k].spec_bytes() != "syscall".spec_bytes() by {
        if k == 0 { assert(X86_ARITHMETIC@[0] == "add"); reveal_strlit("add"); assert("add"@.len() != "syscall"@.len()); lemma_words_differ("add", "syscall"); }
        if k == 1 { assert(X86_ARITHMETIC@[1] == "sub"); reveal_strlit("sub"); assert("sub"@.len() != "syscall"@.len()); lemma_words_differ("sub", "syscall"); }
        if k == 2 { assert(X86_ARITHMETIC@[2] == "mul"); reveal_strlit("mul"); assert("mul"@.len() != "syscall"@.len()); lemma_words_differ("mul", "syscall"); }
        if k == 3 { assert(X86_ARITHMETIC@[3] == "imul"); reveal_strlit("imul"); assert("imul"@.len() != "syscall"@.len()); lemma_words_differ("imul", "syscall"); }
        if k == 4 { assert(X86_ARITHMETIC@[4] == "div"); reveal_strlit("div"); assert("div"@.len() != "syscall"@.len()); lemma_words_differ("div", "syscall"); }
        if k == 5 { assert(X86_ARITHMETIC@[5] == "idiv"); reveal_strlit("idiv"); assert("idiv"@.len() != "syscall"@.len()); lemma_words_differ("idiv", "syscall"); }
        if k == 6 { assert(X86_ARITHMETIC@[6] == "inc"); reveal_strlit("inc"); assert("inc"@.len() != "syscall"@.len()); lemma_words_differ("inc", "syscall"); }
        if k == 7 { assert(X86_ARITHMETIC@[7] == "dec"); reveal_strlit("dec"); assert("dec"@.len() != "syscall"@.len()); lemma_words_differ("dec", "syscall"); }
    }
    assert forall|k: int| 0 <= k < 9 implies #[trigger] X86_LOGIC@[k].spec_bytes() != "syscall".spec_bytes() by {
        if k == 0 { assert(X86_LOGIC@[0] == "and"); reveal_strlit("and"); assert("and"@.len() != "syscall"@.len()); lemma_words_differ("and", "syscall"); }
        if k == 1 { assert(X86_LOGIC@[1] == "or"); reveal_strlit("or"); assert("or"@.len() != "syscall"@.len()); lemma_words_differ("or", "syscall"); }
        if k == 2 { assert(X86_LOGIC@[2] == "xor"); reveal_strlit("xor"); assert("xor"@.len() != "syscall"@.len()); lemma_words_differ("xor", "syscall"); }
        if k == 3 { assert(X86_LOGIC@[3] == "not"); reveal_strlit("not"); assert("not"@.len() != "syscall"@.len()); lemma_words_differ("not", "syscall"); }
        if k == 4 { assert(X86_LOGIC@[4] == "shl"); reveal_strlit("shl"); assert("shl"@.len() != "syscall"@.len()); lemma_words_differ("shl", "syscall"); }
        if k == 5 { assert(X86_LOGIC@[5] == "shr"); reveal_strlit("shr"); assert("shr"@.len() != "syscall"@.len()); lemma_words_differ("shr", "syscall"); }
        if k == 6 { assert(X86_LOGIC@[6] == "sar"); reveal_strlit("sar"); assert("sar"@.len() != "syscall"@.len()); lemma_words_differ("sar", "syscall"); }
        if k == 7 { assert(X86_LOGIC@[7] == "rol"); reveal_strlit("rol"); assert("rol"@.len() != "syscall"@.len()); lemma_words_differ("rol", "syscall"); }
        if k == 8 { assert(X86_LOGIC@[8] == "ror"); reveal_strlit("ror"); assert("ror"@.len() != "syscall"@.len()); lemma_words_differ("ror", "syscall"); }
    }
    assert forall|k: int| 0 <= k < 12 implies #[trigger] X86_CONTROL@[k].spec_bytes() != "syscall".spec_bytes() by {
        if k == 0 { assert(X86_CONTROL@[0] == "jmp"); reveal_strlit("jmp"); assert("jmp"@.len() != "syscall"@.len()); lemma_words_differ("jmp", "syscall"); }
        if k == 1 { assert(X86_CONTROL@[1] == "je"); reveal_strlit("je"); assert("je"@.len() != "syscall"@.len()); lemma_words_differ("je", "syscall"); }
        if k == 2 { assert(X86_CONTROL@[2] == "jne"); reveal_strlit("jne"); assert("jne"@.len() != "syscall"@.len()); lemma_words_differ("jne", "syscall"); }
        if k == 3 { assert(X86_CONTROL@[3] == "jz"); reveal_strlit("jz"); assert("jz"@.len() != "syscall"@.len()); lemma_words_differ("jz", "syscall"); }
        if k == 4 { assert(X86_CONTROL@[4] == "jnz"); reveal_strlit("jnz"); assert("jnz"@.len() != "syscall"@.len()); lemma_words_differ("jnz", "syscall"); }
        if k == 5 { assert(X86_CONTROL@[5] == "jg"); reveal_strlit("jg"); assert("jg"@.len() != "syscall"@.len()); lemma_words_differ("jg", "syscall"); }
        if k == 6 { assert(X86_CONTROL@[6] == "jl"); reveal_strlit("jl"); assert("jl"@.len() != "syscall"@.len()); lemma_words_differ("jl", "syscall"); }
        if k == 7 { assert(X86_CONTROL@[7] == "jge"); reveal_strlit("jge"); assert("jge"@.len() != "syscall"@.len()); lemma_words_differ("jge", "syscall"); }
        if k == 8 { assert(X86_CONTROL@[8] == "jle"); reveal_strlit("jle"); assert("jle"@.len() != "syscall"@.len()); lemma_words_differ("jle", "syscall"); }
        if k == 9 { assert(X86_CONTROL@[9] == "call"); reveal_strlit("call"); assert("call"@.len() != "syscall"@.len()); lemma_words_differ("call", "syscall"); }
        if k == 10 { assert(X86_CONTROL@[10] == "ret"); reveal_strlit("ret"); assert("ret"@.len() != "syscall"@.len()); lemma_words_differ("ret", "syscall"); }
        if k == 11 { assert(X86_CONTROL@[11] == "loop"); reveal_strlit("loop"); assert("loop"@.len() != "syscall"@.len()); lemma_words_differ("loop", "syscall"); }
    }
}

proof fn lemma_x86_word_sysenter()
    ensures
        crate::instruction::spec_categorize_x86("sysenter".spec_bytes()) == Category::System,
{
    reveal_strlit("sysenter");
    assert(X86_SYSTEM@[1] == "sysenter");
    assert forall|k: int| 0 <= k < 6 implies #[trigger] X86_MOV@[k].spec_bytes() != "sysenter".spec_bytes() by {
        if k == 0 { assert(X86_MOV@[0] == "mov"); reveal_strlit("mov"); assert("mov"@.len() != "sysenter"@.len()); lemma_words_differ("mov", "sysenter"); }
        if k == 1 { assert(X86_MOV@[1] == "movzx"); reveal_strlit("movzx"); assert("movzx"@.len() != "sysenter"@.len()); lemma_words_differ("movzx", "sysenter"); }
        if k == 2 { assert(X86_MOV@[2] == "movsx"); reveal_strlit("movsx"); assert("movsx"@.len() != "sysenter"@.len()); lemma_words_differ("movsx", "sysenter"); }
        if k == 3 { assert(X86_MOV@[3] == "lea"); reveal_strlit("lea"); assert("lea"@.len() != "sysenter"@.len()); lemma_words_differ("lea", "sysenter"); }
        if k == 4 { assert(X86_MOV@[4] == "push"); reveal_strlit("push"); assert("push"@.len() != "sysenter"@.len()); lemma_words_differ("push", "sysenter"); }
        if k == 5 { assert(X86_MOV@[5] == "pop"); reveal_strlit("pop"); assert("pop"@.len() != "sysenter"@.len()); lemma_words_differ("pop", "sysenter"); }
    }
    assert forall|k: int| 0 <= k < 8 implies #[trigger] X86_ARITHMETIC@[k].spec_bytes() != "sysenter".spec_bytes() by {
        if k == 0 { assert(X86_ARITHMETIC@[0] == "add"); reveal_strlit("add"); assert("add"@.len() != "sysenter"@.len()); lemma_words_differ("add", "sysenter"); }
        if k == 1 { assert(X86_ARITHMETIC@[1] == "sub"); reveal_strlit("sub"); assert("sub"@.len() != "sysenter"@.len()); lemma_words_differ("sub", "sysenter"); }
        if k == 2 { assert(X86_ARITHMETIC@[2] == "mul"); reveal_strlit("mul"); assert("mul"@.len() != "sysenter"@.len()); lemma_words_differ("mul", "sysenter"); }
        if k == 3 { assert(X86_ARITHMETIC@[3] == "imul"); reveal_strlit("imul"); assert("imul"@.len() != "sysenter"@.len()); lemma_words_differ("imul", "sysenter"); }
        if k == 4 { assert(X86_ARITHMETIC@[4] == "div"); reveal_strlit("div"); assert("div"@.len() != "sysenter"@.len()); lemma_words_differ("div", "sysenter"); }
        if k == 5 { assert(X86_ARITHMETIC@[5] == "idiv"); reveal_strlit("idiv"); assert("idiv"@.len() != "sysenter"@.len()); lemma_words_differ("idiv", "sysenter"); }
        if k == 6 { assert(X86_ARITHMETIC@[6] == "inc"); reveal_strlit("inc"); assert("inc"@.len() != "sysenter"@.len()); lemma_words_differ("inc", "sysenter"); }
        if k == 7 { assert(X86_ARITHMETIC@[7] == "dec"); reveal_strlit("dec"); assert("dec"@.len() != "sysenter"@.len()); lemma_words_differ("dec", "sysenter"); }
    }
    assert forall|k: int| 0 <= k < 9 implies #[trigger] X86_LOGIC@[k].spec_bytes() != "sysenter".spec_bytes() by {
        if k == 0 { assert(X86_LOGIC@[0] == "and"); reveal_strlit("and"); assert("and"@.len() != "sysenter"@.len()); lemma_words_differ("and", "sysenter"); }
        if k == 1 { assert(X86_LOGIC@[1] == "or"); reveal_strlit("or"); assert("or"@.len() != "sysenter"@.len()); lemma_words_differ("or", "sysenter"); }
        if k == 2 { assert(X86_LOGIC@[2] == "xor"); reveal_strlit("xor"); assert("xor"@.len() != "sysenter"@.len()); lemma_words_differ("xor", "sysenter"); }
        if k == 3 { assert(X86_LOGIC@[3] == "not"); reveal_strlit("not"); assert("not"@.len() != "sysenter"@.len()); lemma_words_differ("not", "sysenter"); }
        if k == 4 { assert(X86_LOGIC@[4] == "shl"); reveal_strlit("shl"); assert("shl"@.len() != "sysenter"@.len()); lemma_words_differ("shl", "sysenter"); }
        if k == 5 { assert(X86_LOGIC@[5] == "shr"); reveal_strlit("shr"); assert("shr"@.len() != "sysenter"@.len()); lemma_words_differ("shr", "sysenter"); }
        if k == 6 { assert(X86_LOGIC@[6] == "sar"); reveal_strlit("sar"); assert("sar"@.len() != "sysenter"@.len()); lemma_words_differ("sar", "sysenter"); }
        if k == 7 { assert(X86_LOGIC@[7] == "rol"); reveal_strlit("rol"); assert("rol"@.len() != "sysenter"@.len()); lemma_words_differ("rol", "sysenter"); }
        if k == 8 { assert(X86_LOGIC@[8] == "ror"); reveal_strlit("ror"); assert("ror"@.len() != "sysenter"@.len()); lemma_words_differ("ror", "sysenter"); }
    }
    assert forall|k: int| 0 <= k < 12 implies #[trigger] X86_CONTROL@[k].spec_bytes() != "sysenter".spec_bytes() by {
        if k == 0 { assert(X86_CONTROL@[0] == "jmp"); reveal_strlit("jmp"); assert("jmp"@.len() != "sysenter"@.len()); lemma_words_differ("jmp", "sysenter"); }
        if k == 1 { assert(X86_CONTROL@[1] == "je"); reveal_strlit("je"); assert("je"@.len() != "sysenter"@.len()); lemma_words_differ("je", "sysenter"); }
        if k == 2 { assert(X86_CONTROL@[2] == "jne"); reveal_strlit("jne"); assert("jne"@.len() != "sysenter"@.len()); lemma_words_differ("jne", "sysenter"); }
        if k == 3 { assert(X86_CONTROL@[3] == "jz"); reveal_strlit("jz"); assert("jz"@.len() != "sysenter"@.len()); lemma_words_differ("jz", "sysenter"); }
        if k == 4 { assert(X86_CONTROL@[4] == "jnz"); reveal_strlit("jnz"); assert("jnz"@.len() != "sysenter"@.len()); lemma_words_differ("jnz", "sysenter"); }
        if k == 5 { assert(X86_CONTROL@[5] == "jg"); reveal_strlit("jg"); assert("jg"@.len() != "sysenter"@.len()); lemma_words_differ("jg", "sysenter"); }
        if k == 6 { assert(X86_CONTROL@[6] == "jl"); reveal_strlit("jl"); assert("jl"@.len() != "sysenter"@.len()); lemma_words_differ("jl", "sysenter"); }
        if k == 7 { assert(X86_CONTROL@[7] == "jge"); reveal_strlit("jge"); assert("jge"@.len() != "sysenter"@.len()); lemma_words_differ("jge", "sysenter"); }
        if k == 8 { assert(X86_CONTROL@[8] == "jle"); reveal_strlit("jle"); assert("jle"@.len() != "sysenter"@.len()); lemma_words_differ("jle", "sysenter"); }
        if k == 9 { assert(X86_CONTROL@[9] == "call"); reveal_strlit("call"); assert("call"@.len() != "sysenter"@.len()); lemma_words_differ("call", "sysenter"); }
        if k == 10 { assert(X86_CONTROL@[10] == "ret"); reveal_strlit("ret"); assert("ret"@.len() != "sysenter"@.len()); lemma_words_differ("ret", "sysenter"); }
        if k == 11 { assert(X86_CONTROL@[11] == "loop"); reveal_strlit("loop"); assert("loop"@.len() != "sysenter"@.len()); lemma_words_differ("loop", "sysenter"); }
    }
}

proof fn lemma_x86_word_int()
    ensures
        crate::instruction::spec_categorize_x86("int".spec_bytes()) == Category::System,
{
    reveal_strlit("int");
    assert(X86_SYSTEM@[2] == "int");
    assert forall|k: int| 0 <= k < 6 implies #[trigger] X86_MOV@[k].spec_bytes() != "int".spec_bytes() by {
        if k == 0 { assert(X86_MOV@[0] == "mov"); reveal_strlit("mov"); assert("mov"@[0] != "int"@[0]); lemma_words_differ("mov", "int"); }
        if k == 1 { assert(X86_MOV@[1] == "movzx"); reveal_strlit("movzx"); assert("movzx"@.len() != "int"@.len()); lemma_words_differ("movzx", "int"); }
        if k == 2 { assert(X86_MOV@[2] == "movsx"); reveal_strlit("movsx"); assert("movsx"@.len() != "int"@.len()); lemma_words_differ("movsx", "int"); }
        if k == 3 { assert(X86_MOV@[3] == "lea"); reveal_strlit("lea"); assert("lea"@[0] != "int"@[0]); lemma_words_differ("lea", "int"); }
        if k == 4 { assert(X86_MOV@[4] == "push"); reveal_strlit("push"); assert("push"@.len() != "int"@.len()); lemma_words_differ("push", "int"); }
        if k == 5 { assert(X86_MOV@[5] == "pop"); reveal_strlit("pop"); assert("pop"@[0] != "int"@[0]); lemma_words_differ("pop", "int"); }
    }
    assert forall|k: int| 0 <= k < 8 implies #[trigger] X86_ARITHMETIC@[k].spec_bytes() != "int".spec_bytes() by {
        if k == 0 { assert(X86_ARITHMETIC@[0] == "add"); reveal_strlit("add"); assert("add"@[0] != "int"@[0]); lemma_words_differ("add", "int"); }
        if k == 1 { assert(X86_ARITHMETIC@[1] == "sub"); reveal_strlit("sub"); assert("sub"@[0] != "int"@[0]); lemma_words_differ("sub", "int"); }
        if k == 2 { assert(X86_ARITHMETIC@[2] == "mul"); reveal_strlit("mul"); assert("mul"@[0] != "int"@[0]); lemma_words_differ("mul", "int"); }
        if k == 3 { assert(X86_ARITHMETIC@[3] == "imul"); reveal_strlit("imul"); assert("imul"@.len() != "int"@.len()); lemma_words_differ("imul", "int"); }
        if k == 4 { assert(X86_ARITHMETIC@[4] == "div"); reveal_strlit("div"); assert("div"@[0] != "int"@[0]); lemma_words_differ("div", "int"); }
        if k == 5 { assert(X86_ARITHMETIC@[5] == "idiv"); reveal_strlit("idiv"); assert("idiv"@.len() != "int"@.len()); lemma_words_differ("idiv", "int"); }
        if k == 6 { assert(X86_ARITHMETIC@[6] == "inc"); reveal_strlit("inc"); assert("inc"@[2] != "int"@[2]); lemma_words_differ("inc", "int"); }
        if k == 7 { assert(X86_ARITHMETIC@[7] == "dec"); reveal_strlit("dec"); assert("dec"@[0] != "int"@[0]); lemma_words_differ("dec", "int"); }
    }
    assert forall|k: int| 0 <= k < 9 implies #[trigger] X86_LOGIC@[k].spec_bytes() != "int".spec_bytes() by {
        if k == 0 { assert(X86_LOGIC@[0] == "and"); reveal_strlit("and"); assert("and"@[0] != "int"@[0]); lemma_words_differ("and", "int"); }
        if k == 1 { assert(X86_LOGIC@[1] == "or"); reveal_strlit("or"); assert("or"@.len() != "int"@.len()); lemma_words_differ("or", "int"); }
        if k == 2 { assert(X86_LOGIC@[2] == "xor"); reveal_strlit("xor"); assert("xor"@[0] != "int"@[0]); lemma_words_differ("xor", "int"); }
        if k == 3 { assert(X86_LOGIC@[3] == "not"); reveal_strlit("not"); assert("not"@[0] != "int"@[0]); lemma_words_differ("not", "int"); }
        if k == 4 { assert(X86_LOGIC@[4] == "shl"); reveal_strlit("shl"); assert("shl"@[0] != "int"@[0]); lemma_words_differ("shl", "int"); }
        if k == 5 { assert(X86_LOGIC@[5] == "shr"); reveal_strlit("shr"); assert("shr"@[0] != "int"@[0]); lemma_words_differ("shr", "int"); }
        if k == 6 { assert(X86_LOGIC@[6] == "sar"); reveal_strlit("sar"); assert("sar"@[0] != "int"@[0]); lemma_words_differ("sar", "int"); }
        if k == 7 { assert(X86_LOGIC@[7] == "rol"); reveal_strlit("rol"); assert("rol"@[0] != "int"@[0]); lemma_words_differ("rol", "int"); }
        if k == 8 { assert(X86_LOGIC@[8] == "ror"); reveal_strlit("ror"); assert("ror"@[0] != "int"@[0]); lemma_words_differ("ror", "int"); }
    }
    assert forall|k: int| 0 <= k < 12 implies #[trigger] X86_CONTROL@[k].spec_bytes() != "int".spec_bytes() by {
        if k == 0 { assert(X86_CONTROL@[0] == "jmp"); reveal_strlit("jmp"); assert("jmp"@[0] != "int"@[0]); lemma_words_differ("jmp", "int"); }
        if k == 1 { assert(X86_CONTROL@[1] == "je"); reveal_strlit("je"); assert("je"@.len() != "int"@.len()); lemma_words_differ("je", "int"); }
        if k == 2 { assert(X86_CONTROL@[2] == "jne"); reveal_strlit("jne"); assert("jne"@[0] != "int"@[0]); lemma_words_differ("jne", "int"); }
        if k == 3 { assert(X86_CONTROL@[3] == "jz"); reveal_strlit("jz"); assert("jz"@.len() != "int"@.len()); lemma_words_differ("jz", "int"); }
        if k == 4 { assert(X86_CONTROL@[4] == "jnz"); reveal_strlit("jnz"); assert("jnz"@[0] != "int"@[0]); lemma_words_differ("jnz", "int"); }
        if k == 5 { assert(X86_CONTROL@[5] == "jg"); reveal_strlit("jg"); assert("jg"@.len() != "int"@.len()); lemma_words_differ("jg", "int"); }
        if k == 6 { assert(X86_CONTROL@[6] == "jl"); reveal_strlit("jl"); assert("jl"@.len() != "int"@.len()); lemma_words_differ("jl", "int"); }
        if k == 7 { assert(X86_CONTROL@[7] == "jge"); reveal_strlit("jge"); assert("jge"@[0] != "int"@[0]); lemma_words_differ("jge", "int"); }
        if k == 8 { assert(X86_CONTROL@[8] == "jle"); reveal_strlit("jle"); assert("jle"@[0] != "int"@[0]); lemma_words_differ("jle", "int"); }
        if k == 9 { assert(X86_CONTROL@[9] == "call"); reveal_strlit("call"); assert("call"@.len() != "int"@.len()); lemma_words_differ("call", "int"); }
        if k == 10 { assert(X86_CONTROL@[10] == "ret"); reveal_strlit("ret"); assert("ret"@[0] != "int"@[0]); lemma_words_differ("ret", "int"); }
        if k == 11 { assert(X86_CONTROL@[11] == "loop"); reveal_strlit("loop"); assert("loop"@.len() != "int"@.len()); lemma_words_differ("loop", "int"); }
    }
}

proof fn lemma_x86_word_in()
    ensures
        crate::instruction::spec_categorize_x86("in".spec_bytes()) == Category::System,
{
    reveal_strlit("in");
    assert(X86_SYSTEM@[3] == "in");
    assert forall|k: int| 0 <= k < 6 implies #[trigger] X86_MOV@[k].spec_bytes() != "in".spec_bytes() by {
        if k == 0 { assert(X86_MOV@[0] == "mov"); reveal_strlit("mov"); assert("mov"@.len() != "in"@.len()); lemma_words_differ("mov", "in"); }
        if k == 1 { assert(X86_MOV@[1] == "movzx"); reveal_strlit("movzx"); assert("movzx"@.len() != "in"@.len()); lemma_words_differ("movzx", "in"); }
        if k == 2 { assert(X86_MOV@[2] == "movsx"); reveal_strlit("movsx"); assert("movsx"@.len() != "in"@.len()); lemma_words_differ("movsx", "in"); }
        if k == 3 { assert(X86_MOV@[3] == "lea"); reveal_strlit("lea"); assert("lea"@.len() != "in"@.len()); lemma_words_differ("lea", "in"); }
        if k == 4 { assert(X86_MOV@[4] == "push"); reveal_strlit("push"); assert("push"@.len() != "in"@.len()); lemma_words_differ("push", "in"); }
        if k == 5 { assert(X86_MOV@[5] == "pop"); reveal_strlit("pop"); assert("pop"@.len() != "in"@.len()); lemma_words_differ("pop", "in"); }
    }
    assert forall|k: int| 0 <= k < 8 implies #[trigger] X86_ARITHMETIC@[k].spec_bytes() != "in".spec_bytes() by {
        if k == 0 { assert(X86_ARITHMETIC@[0] == "add"); reveal_strlit("add"); assert("add"@.len() != "in"@.len()); lemma_words_differ("add", "in"); }
        if k == 1 { assert(X86_ARITHMETIC@[1] == "sub"); reveal_strlit("sub"); assert("sub"@.len() != "in"@.len()); lemma_words_differ("sub", "in"); }
        if k == 2 { assert(X86_ARITHMETIC@[2] == "mul"); reveal_strlit("mul"); assert("mul"@.len() != "in"@.len()); lemma_words_differ("mul", "in"); }
        if k == 3 { assert(X86_ARITHMETIC@[3] == "imul"); reveal_strlit("imul"); assert("imul"@.len() != "in"@.len()); lemma_words_differ("imul", "in"); }
        if k == 4 { assert(X86_ARITHMETIC@[4] == "div"); reveal_strlit("div"); assert("div"@.len() != "in"@.len()); lemma_words_differ("div", "in"); }
        if k == 5 { assert(X86_ARITHMETIC@[5] == "idiv"); reveal_strlit("idiv"); assert("idiv"@.len() != "in"@.len()); lemma_words_differ("idiv", "in"); }
        if k == 6 { assert(X86_ARITHMETIC@[6] == "inc"); reveal_strlit("inc"); assert("inc"@.len() != "in"@.len()); lemma_words_differ("inc", "in"); }
        if k == 7 { assert(X86_ARITHMETIC@[7] == "dec"); reveal_strlit("dec"); assert("dec"@.len() != "in"@.len()); lemma_words_differ("dec", "in"); }
    }
    assert forall|k: int| 0 <= k < 9 implies #[trigger] X86_LOGIC@[k].spec_bytes() != "in".spec_bytes() by {
        if k == 0 { assert(X86_LOGIC@[0] == "and"); reveal_strlit("and"); assert("and"@.len() != "in"@.len()); lemma_words_differ("and", "in"); }
        if k == 1 { assert(X86_LOGIC@[1] == "or"); reveal_strlit("or"); assert("or"@[0] != "in"@[0]); lemma_words_differ("or", "in"); }
        if k == 2 { assert(X86_LOGIC@[2] == "xor"); reveal_strlit("xor"); assert("xor"@.len() != "in"@.len()); lemma_words_differ("xor", "in"); }
        if k == 3 { assert(X86_LOGIC@[3] == "not"); reveal_strlit("not"); assert("not"@.len() != "in"@.len()); lemma_words_differ("not", "in"); }
        if k == 4 { assert(X86_LOGIC@[4] == "shl"); reveal_strlit("shl"); assert("shl"@.len() != "in"@.len()); lemma_words_differ("shl", "in"); }
        if k == 5 { assert(X86_LOGIC@[5] == "shr"); reveal_strlit("shr"); assert("shr"@.len() != "in"@.len()); lemma_words_differ("shr", "in"); }
        if k == 6 { assert(X86_LOGIC@[6] == "sar"); reveal_strlit("sar"); assert("sar"@.len() != "in"@.len()); lemma_words_differ("sar", "in"); }
        if k == 7 { assert(X86_LOGIC@[7] == "rol"); reveal_strlit("rol"); assert("rol"@.len() != "in"@.len()); lemma_words_differ("rol", "in"); }
        if k == 8 { assert(X86_LOGIC@[8] == "ror"); reveal_strlit("ror"); assert("ror"@.len() != "in"@.len()); lemma_words_differ("ror", "in"); }
    }
    assert forall|k: int| 0 <= k < 12 implies #[trigger] X86_CONTROL@[k].spec_bytes() != "in".spec_bytes() by {
        if k == 0 { assert(X86_CONTROL@[0] == "jmp"); reveal_strlit("jmp"); assert("jmp"@.len() != "in"@.len()); lemma_words_differ("jmp", "in"); }
        if k == 1 { assert(X86_CONTROL@[1] == "je"); reveal_strlit("je"); assert("je"@[0] != "in"@[0]); lemma_words_differ("je", "in"); }
        if k == 2 { assert(X86_CONTROL@[2] == "jne"); reveal_strlit("jne"); assert("jne"@.len() != "in"@.len()); lemma_words_differ("jne", "in"); }
        if k == 3 { assert(X86_CONTROL@[3] == "jz"); reveal_strlit("jz"); assert("jz"@[0] != "in"@[0]); lemma_words_differ("jz", "in"); }
        if k == 4 { assert(X86_CONTROL@[4] == "jnz"); reveal_strlit("jnz"); assert("jnz"@.len() != "in"@.len()); lemma_words_differ("jnz", "in"); }
        if k == 5 { assert(X86_CONTROL@[5] == "jg"); reveal_strlit("jg"); assert("jg"@[0] != "in"@[0]); lemma_words_differ("jg", "in"); }
        if k == 6 { assert(X86_CONTROL@[6] == "jl"); reveal_strlit("jl"); assert("jl"@[0] != "in"@[0]); lemma_words_differ("jl", "in"); }
        if k == 7 { assert(X86_CONTROL@[7] == "jge"); reveal_strlit("jge"); assert("jge"@.len() != "in"@.len()); lemma_words_differ("jge", "in"); }
        if k == 8 { assert(X86_CONTROL@[8] == "jle"); reveal_strlit("jle"); assert("jle"@.len() != "in"@.len()); lemma_words_differ("jle", "in"); }
        if k == 9 { assert(X86_CONTROL@[9] == "call"); reveal_strlit("call"); assert("call"@.len() != "in"@.len()); lemma_words_differ("call", "in"); }
        if k == 10 { assert(X86_CONTROL@[10] == "ret"); reveal_strlit("ret"); assert("ret"@.len() != "in"@.len()); lemma_words_differ("ret", "in"); }
        if k == 11 { assert(X86_CONTROL@[11] == "loop"); reveal_strlit("loop"); assert("loop"@.len() != "in"@.len()); lemma_words_differ("loop", "in"); }
    }
}

proof fn lemma_x86_word_out()
    ensures
        crate::instruction::spec_categorize_x86("out".spec_bytes()) == Category::System,
{
    reveal_strlit("out");
    assert(X86_SYSTEM@[4] == "out");
    assert forall|k: int| 0 <= k < 6 implies #[trigger] X86_MOV@[k].spec_bytes() != "out".spec_bytes() by {
        if k == 0 { assert(X86_MOV@[0] == "mov"); reveal_strlit("mov"); assert("mov"@[0] != "out"@[0]); lemma_words_differ("mov", "out"); }
        if k == 1 { assert(X86_MOV@[1] == "movzx"); reveal_strlit("movzx"); assert("movzx"@.len() != "out"@.len()); lemma_words_differ("movzx", "out"); }
        if k == 2 { assert(X86_MOV@[2] == "movsx"); reveal_strlit("movsx"); assert("movsx"@.len() != "out"@.len()); lemma_words_differ("movsx", "out"); }
        if k == 3 { assert(X86_MOV@[3] == "lea"); reveal_strlit("lea"); assert("lea"@[0] != "out"@[0]); lemma_words_differ("lea", "out"); }
        if k == 4 { assert(X86_MOV@[4] == "push"); reveal_strlit("push"); assert("push"@.len() != "out"@.len()); lemma_words_differ("push", "out"); }
        if k == 5 { assert(X86_MOV@[5] == "pop"); reveal_strlit("pop"); assert("pop"@[0] != "out"@[0]); lemma_words_differ("pop", "out"); }
    }
    assert forall|k: int| 0 <= k < 8 implies #[trigger] X86_ARITHMETIC@[k].spec_bytes() != "out".spec_bytes() by {
        if k == 0 { assert(X86_ARITHMETIC@[0] == "add"); reveal_strlit("add"); assert("add"@[0] != "out"@[0]); lemma_words_differ("add", "out"); }
        if k == 1 { assert(X86_ARITHMETIC@[1] == "sub"); reveal_strlit("sub"); assert("sub"@[0] != "out"@[0]); lemma_words_differ("sub", "out"); }
        if k == 2 { assert(X86_ARITHMETIC@[2] == "mul"); reveal_strlit("mul"); assert("mul"@[0] != "out"@[0]); lemma_words_differ("mul", "out"); }
        if k == 3 { assert(X86_ARITHMETIC@[3] == "imul"); reveal_strlit("imul"); assert("imul"@.len() != "out"@.len()); lemma_words_differ("imul", "out"); }
        if k == 4 { assert(X86_ARITHMETIC@[4] == "div"); reveal_strlit("div"); assert("div"@[0] != "out"@[0]); lemma_words_differ("div", "out"); }
        if k == 5 { assert(X86_ARITHMETIC@[5] == "idiv"); reveal_strlit("idiv"); assert("idiv"@.len() != "out"@.len()); lemma_words_differ("idiv", "out"); }
        if k == 6 { assert(X86_ARITHMETIC@[6] == "inc"); reveal_strlit("inc"); assert("inc"@[0] != "out"@[0]); lemma_words_differ("inc", "out"); }
        if k == 7 { assert(X86_ARITHMETIC@[7] == "dec"); reveal_strlit("dec"); assert("dec"@[0] != "out"@[0]); lemma_words_differ("dec", "out"); }
    }
    assert forall|k: int| 0 <= k < 9 implies #[trigger] X86_LOGIC@[k].spec_bytes() != "out".spec_bytes() by {
        if k == 0 { assert(X86_LOGIC@[0] == "and"); reveal_strlit("and"); assert("and"@[0] != "out"@[0]); lemma_words_differ("and", "out"); }
        if k == 1 { assert(X86_LOGIC@[1] == "or"); reveal_strlit("or"); assert("or"@.len() != "out"@.len()); lemma_words_differ("or", "out"); }
        if k == 2 { assert(X86_LOGIC@[2] == "xor"); reveal_strlit("xor"); assert("xor"@[0] != "out"@[0]); lemma_words_differ("xor", "out"); }
        if k == 3 { assert(X86_LOGIC@[3] == "not"); reveal_strlit("not"); assert("not"@[0] != "out"@[0]); lemma_words_differ("not", "out"); }
        if k == 4 { assert(X86_LOGIC@[4] == "shl"); reveal_strlit("shl"); assert("shl"@[0] != "out"@[0]); lemma_words_differ("shl", "out"); }
        if k == 5 { assert(X86_LOGIC@[5] == "shr"); reveal_strlit("shr"); assert("shr"@[0] != "out"@[0]); lemma_words_differ("shr", "out"); }
        if k == 6 { assert(X86_LOGIC@[6] == "sar"); reveal_strlit("sar"); assert("sar"@[0] != "out"@[0]); lemma_words_differ("sar", "out"); }
        if k == 7 { assert(X86_LOGIC@[7] == "rol"); reveal_strlit("rol"); assert("rol"@[0] != "out"@[0]); lemma_words_differ("rol", "out"); }
        if k == 8 { assert(X86_LOGIC@[8] == "ror"); reveal_strlit("ror"); assert("ror"@[0] != "out"@[0]); lemma_words_differ("ror", "out"); }
    }
    assert forall|k: int| 0 <= k < 12 implies #[trigger] X86_CONTROL@[k].spec_bytes() != "out".spec_bytes() by {
        if k == 0 { assert(X86_CONTROL@[0] == "jmp"); reveal_strlit("jmp"); assert("jmp"@[0] != "out"@[0]); lemma_words_differ("jmp", "out"); }
        if k == 1 { assert(X86_CONTROL@[1] == "je"); reveal_strlit("je"); assert("je"@.len() != "out"@.len()); lemma_words_differ("je", "out"); }
        if k == 2 { assert(X86_CONTROL@[2] == "jne"); reveal_strlit("jne"); assert("jne"@[0] != "out"@[0]); lemma_words_differ("jne", "out"); }
        if k == 3 { assert(X86_CONTROL@[3] == "jz"); reveal_strlit("jz"); assert("jz"@.len() != "out"@.len()); lemma_words_differ("jz", "out"); }
        if k == 4 { assert(X86_CONTROL@[4] == "jnz"); reveal_strlit("jnz"); assert("jnz"@[0] != "out"@[0]); lemma_words_differ("jnz", "out"); }
        if k == 5 { assert(X86_CONTROL@[5] == "jg"); reveal_strlit("jg"); assert("jg"@.len() != "out"@.len()); lemma_words_differ("jg", "out"); }
        if k == 6 { assert(X86_CONTROL@[6] == "jl"); reveal_strlit("jl"); assert("jl"@.len() != "out"@.len()); lemma_words_differ("jl", "out"); }
        if k == 7 { assert(X86_CONTROL@[7] == "jge"); reveal_strlit("jge"); assert("jge"@[0] != "out"@[0]); lemma_words_differ("jge", "out"); }
        if k == 8 { assert(X86_CONTROL@[8] == "jle"); reveal_strlit("jle"); assert("jle"@[0] != "out"@[0]); lemma_words_differ("jle", "out"); }
        if k == 9 { assert(X86_CONTROL@[9] == "call"); reveal_strlit("call"); assert("call"@.len() != "out"@.len()); lemma_words_differ("call", "out"); }
        if k == 10 { assert(X86_CONTROL@[10] == "ret"); reveal_strlit("ret"); assert("ret"@[0] != "out"@[0]); lemma_words_differ("ret", "out"); }
        if k == 11 { assert(X86_CONTROL@[11] == "loop"); reveal_strlit("loop"); assert("loop"@.len() != "out"@.len()); lemma_words_differ("loop", "out"); }
    }
}

proof fn lemma_x86_system_words(m: Seq<u8>)
    requires
        m == "syscall".spec_bytes() || m == "sysenter".spec_bytes() || m == "int".spec_bytes() || m == "in".spec_bytes() || m == "out".spec_bytes(),
    ensures
        crate::instruction::spec_categorize_x86(m) == Category::System,
        crate::instruction::spec_categorize(m, ArchKind::X86) == Category::System,
        crate::instruction::listing_counts(seq![Some(m)], ArchKind::X86) == (1int, 0int, 0int, 0int, 0int, 1int),
        crate::instruction::spec_categorize(m, ArchKind::X86_64) == Category::System,
        crate::instruction::listing_counts(seq![Some(m)], ArchKind::X86_64) == (1int, 0int, 0int, 0int, 0int, 1int),
{
    if m == "syscall".spec_bytes() {
        lemma_x86_word_syscall();
        reveal_strlit("syscall");
        lemma_lower_fixed("syscall");
    }
    if m == "sysenter".spec_bytes() {
        lemma_x86_word_sysenter();
        reveal_strlit("sysenter");
        lemma_lower_fixed("sysenter");
    }
    if m == "int".spec_bytes() {
        lemma_x86_word_int();
        reveal_strlit("int");
        lemma_lower_fixed("int");
    }
    if m == "in".spec_bytes() {
        lemma_x86_word_in();
        reveal_strlit("in");
        lemma_lower_fixed("in");
    }
    if m == "out".spec_bytes() {
        lemma_x86_word_out();
        reveal_strlit("out");
        lemma_lower_fixed("out");
    }
    assert(seq![Some(m)].drop_last() =~= Seq::<Option<Seq<u8>>>::empty());
    assert(seq![Some(m)].last() == Some(m));
    assert(crate::instruction::listing_counts(Seq::<Option<Seq<u8>>>::empty(), ArchKind::X86) == (0int, 0int, 0int, 0int, 0int, 0int));
    assert(crate::instruction::listing_counts(Seq::<Option<Seq<u8>>>::empty(), ArchKind::X86_64) == (0int, 0int, 0int, 0int, 0int, 0int));
}

proof fn lemma_x86_other_words(m: Seq<u8>)
    requires
        !(m == "add".spec_bytes() || m == "and".spec_bytes() || m == "call".spec_bytes() || m == "dec".spec_bytes() || m == "div".spec_bytes() || m == "idiv".spec_bytes() || m == "imul".spec_bytes() || m == "in".spec_bytes() || m == "inc".spec_bytes() || m == "int".spec_bytes() || m == "je".spec_bytes() || m == "jg".spec_bytes() || m == "jge".spec_bytes() || m == "jl".spec_bytes() || m == "jle".spec_bytes() || m == "jmp".spec_bytes() || m == "jne".spec_bytes() || m == "jnz".spec_bytes() || m == "jz".spec_bytes() || m == "lea".spec_bytes() || m == "loop".spec_bytes() || m == "mov".spec_bytes() || m == "movsx".spec_bytes() || m == "movzx".spec_bytes() || m == "mul".spec_bytes() || m == "not".spec_bytes() || m == "or".spec_bytes() || m == "out".spec_bytes() || m == "pop".spec_bytes() || m == "push".spec_bytes() || m == "ret".spec_bytes() || m == "rol".spec_bytes() || m == "ror".spec_bytes() || m == "sar".spec_bytes() || m == "shl".spec_bytes() || m == "shr".spec_bytes() || m == "sub".spec_bytes() || m == "syscall".spec_bytes() || m == "sysenter".spec_bytes() || m == "xor".spec_bytes()),
    ensures
        crate::instruction::spec_categorize_x86(m) == Category::Other,
{
    assert(!crate::instruction::listed(m, X86_MOV@)) by {
        if crate::instruction::listed(m, X86_MOV@) {
            let k = choose|k: int| 0 <= k < 6 && #[trigger] X86_MOV@[k].spec_bytes() == m;
            if k == 0 { assert(X86_MOV@[0] == "mov"); }
            if k == 1 { assert(X86_MOV@[1] == "movzx"); }
            if k == 2 { assert(X86_MOV@[2] == "movsx"); }
            if k == 3 { assert(X86_MOV@[3] == "lea"); }
            if k == 4 { assert(X86_MOV@[4] == "push"); }
            if k == 5 { assert(X86_MOV@[5] == "pop"); }
        }
    }
    assert(!crate::instruction::listed(m, X86_ARITHMETIC@)) by {
        if crate::instruction::listed(m, X86_ARITHMETIC@) {
            let k = choose|k: int| 0 <= k < 8 && #[trigger] X86_ARITHMETIC@[k].spec_bytes() == m;
            if k == 0 { assert(X86_ARITHMETIC@[0] == "add"); }
            if k == 1 { assert(X86_ARITHMETIC@[1] == "sub"); }
            if k == 2 { assert(X86_ARITHMETIC@[2] == "mul"); }
            if k == 3 { assert(X86_ARITHMETIC@[3] == "imul"); }
            if k == 4 { assert(X86_ARITHMETIC@[4] == "div"); }
            if k == 5 { assert(X86_ARITHMETIC@[5] == "idiv"); }
            if k == 6 { assert(X86_ARITHMETIC@[6] == "inc"); }
            if k == 7 { assert(X86_ARITHMETIC@[7] == "dec"); }
        }
    }
    assert(!crate::instruction::listed(m, X86_LOGIC@)) by {
        if crate::instruction::listed(m, X86_LOGIC@) {
            let k = choose|k: int| 0 <= k < 9 && #[trigger] X86_LOGIC@[k].spec_bytes() == m;
            if k == 0 { assert(X86_LOGIC@[0] == "and"); }
            if k == 1 { assert(X86_LOGIC@[1] == "or"); }
            if k == 2 { assert(X86_LOGIC@[2] == "xor"); }
            if k == 3 { assert(X86_LOGIC@[3] == "not"); }
            if k == 4 { assert(X86_LOGIC@[4] == "shl"); }
            if k == 5 { assert(X86_LOGIC@[5] == "shr"); }
            if k == 6 { assert(X86_LOGIC@[6] == "sar"); }
            if k == 7 { assert(X86_LOGIC@[7] == "rol"); }
            if k == 8 { assert(X86_LOGIC@[8] == "ror"); }
        }
    }
    assert(!crate::instruction::listed(m, X86_CONTROL@)) by {
        if crate::instruction::listed(m, X86_CONTROL@) {
            let k = choose|k: int| 0 <= k < 12 && #[trigger] X86_CONTROL@[k].spec_bytes() == m;
            if k == 0 { assert(X86_CONTROL@[0] == "jmp"); }
            if k == 1 { assert(X86_CONTROL@[1] == "je"); }
            if k == 2 { assert(X86_CONTROL@[2] == "jne"); }
            if k == 3 { assert(X86_CONTROL@[3] == "jz"); }
            if k == 4 { assert(X86_CONTROL@[4] == "jnz"); }
            if k == 5 { assert(X86_CONTROL@[5] == "jg"); }
            if k == 6 { assert(X86_CONTROL@[6] == "jl"); }
            if k == 7 { assert(X86_CONTROL@[7] == "jge"); }
            if k == 8 { assert(X86_CONTROL@[8] == "jle"); }
            if k == 9 { assert(X86_CONTROL@[9] == "call"); }
            if k == 10 { assert(X86_CONTROL@[10] == "ret"); }
            if k == 11 { assert(X86_CONTROL@[11] == "loop"); }
        }
    }
    assert(!crate::instruction::listed(m, X86_SYSTEM@)) by {
        if crate::instruction::listed(m, X86_SYSTEM@) {
            let k = choose|k: int| 0 <= k < 5 && #[trigger] X86_SYSTEM@[k].spec_bytes() == m;
            if k == 0 { assert(X86_SYSTEM@[0] == "syscall"); }
            if k == 1 { assert(X86_SYSTEM@[1] == "sysenter"); }
            if k == 2 { assert(X86_SYSTEM@[2] == "int"); }
            if k == 3 { assert(X86_SYSTEM@[3] == "in"); }
            if k == 4 { assert(X86_SYSTEM@[4] == "out"); }
        }
    }
}

/// On x86 and x86-64 the instruction families are exactly these mnemonics; every other
/// mnemonic is `Other`. A listing of one lower-case mnemonic is counted once, in its family.
pub proof fn lemma_x86_instruction_families(m: Seq<u8>)
    ensures
        m == "mov".spec_bytes() || m == "movzx".spec_bytes() || m == "movsx".spec_bytes() || m == "lea".spec_bytes() || m == "push".spec_bytes() || m == "pop".spec_bytes()
            ==> crate::instruction::spec_categorize(m, ArchKind::X86) == Category::Mov
                && crate::instruction::listing_counts(seq![Some(m)], ArchKind::X86) == (1int, 1int, 0int, 0int, 0int, 0int),
        m == "add".spec_bytes() || m == "sub".spec_bytes() || m == "mul".spec_bytes() || m == "imul".spec_bytes() || m == "div".spec_bytes() || m == "idiv".spec_bytes() || m == "inc".spec_bytes() || m == "dec".spec_bytes()
            ==> crate::instruction::spec_categorize(m, ArchKind::X86) == Category::Arithmetic
                && crate::instruction::listing_counts(seq![Some(m)], ArchKind::X86) == (1int, 0int, 1int, 0int, 0int, 0int),
        m == "and".spec_bytes() || m == "or".spec_bytes() || m == "xor".spec_bytes() || m == "not".spec_bytes() || m == "shl".spec_bytes() || m == "shr".spec_bytes() || m == "sar".spec_bytes() || m == "rol".spec_bytes() || m == "ror".spec_bytes()
            ==> crate::instruction::spec_categorize(m, ArchKind::X86) == Category::Logic
                && crate::instruction::listing_counts(seq![Some(m)], ArchKind::X86) == (1int, 0int, 0int, 1int, 0int, 0int),
        m == "jmp".spec_bytes() || m == "je".spec_bytes() || m == "jne".spec_bytes() || m == "jz".spec_bytes() || m == "jnz".spec_bytes() || m == "jg".spec_bytes() || m == "jl".spec_bytes() || m == "jge".spec_bytes() || m == "jle".spec_bytes() || m == "call".spec_bytes() || m == "ret".spec_bytes() || m == "loop".spec_bytes()
            ==> crate::instruction::spec_categorize(m, ArchKind::X86) == Category::ControlFlow
                && crate::instruction::listing_counts(seq![Some(m)], ArchKind::X86) == (1int, 0int, 0int, 0int, 1int, 0int),
        m == "syscall".spec_bytes() || m == "sysenter".spec_bytes() || m == "int".spec_bytes() || m == "in".spec_bytes() || m == "out".spec_bytes()
            ==> crate::instruction::spec_categorize(m, ArchKind::X86) == Category::System
                && crate::instruction::listing_counts(seq![Some(m)], ArchKind::X86) == (1int, 0int, 0int, 0int, 0int, 1int),
        !(m == "add".spec_bytes() || m == "and".spec_bytes() || m == "call".spec_bytes() || m == "dec".spec_bytes() || m == "div".spec_bytes() || m == "idiv".spec_bytes() || m == "imul".spec_bytes() || m == "in".spec_bytes() || m == "inc".spec_bytes() || m == "int".spec_bytes() || m == "je".spec_bytes() || m == "jg".spec_bytes() || m == "jge".spec_bytes() || m == "jl".spec_bytes() || m == "jle".spec_bytes() || m == "jmp".spec_bytes() || m == "jne".spec_bytes() || m == "jnz".spec_bytes() || m == "jz".spec_bytes() || m == "lea".spec_bytes() || m == "loop".spec_bytes() || m == "mov".spec_bytes() || m == "movsx".spec_bytes() || m == "movzx".spec_bytes() || m == "mul".spec_bytes() || m == "not".spec_bytes() || m == "or".spec_bytes() || m == "out".spec_bytes() || m == "pop".spec_bytes() || m == "push".spec_bytes() || m == "ret".spec_bytes() || m == "rol".spec_bytes() || m == "ror".spec_bytes() || m == "sar".spec_bytes() || m == "shl".spec_bytes() || m == "shr".spec_bytes() || m == "sub".spec_bytes() || m == "syscall".spec_bytes() || m == "sysenter".spec_bytes() || m == "xor".spec_bytes())
            ==> crate::instruction::spec_categorize(m, ArchKind::X86) == Category::Other,
        m == "mov".spec_bytes() || m == "movzx".spec_bytes() || m == "movsx".spec_bytes() || m == "lea".spec_bytes() || m == "push".spec_bytes() || m == "pop".spec_bytes()
            ==> crate::instruction::spec_categorize(m, ArchKind::X86_64) == Category::Mov
                && crate::instruction::listing_counts(seq![Some(m)], ArchKind::X86_64) == (1int, 1int, 0int, 0int, 0int, 0int),
        m == "add".spec_bytes() || m == "sub".spec_bytes() || m == "mul".spec_bytes() || m == "imul".spec_bytes() || m == "div".spec_bytes() || m == "idiv".spec_bytes() || m == "inc".spec_bytes() || m == "dec".spec_bytes()
            ==> crate::instruction::spec_categorize(m, ArchKind::X86_64) == Category::Arithmetic
                && crate::instruction::listing_counts(seq![Some(m)], ArchKind::X86_64) == (1int, 0int, 1int, 0int, 0int, 0int),
        m == "and".spec_bytes() || m == "or".spec_bytes() || m == "xor".spec_bytes() || m == "not".spec_bytes() || m == "shl".spec_bytes() || m == "shr".spec_bytes() || m == "sar".spec_bytes() || m == "rol".spec_bytes() || m == "ror".spec_bytes()
            ==> crate::instruction::spec_categorize(m, ArchKind::X86_64) == Category::Logic
                && crate::instruction::listing_counts(seq![Some(m)], ArchKind::X86_64) == (1int, 0int, 0int, 1int, 0int, 0int),
        m == "jmp".spec_bytes() || m == "je".spec_bytes() || m == "jne".spec_bytes() || m == "jz".spec_bytes() || m == "jnz".spec_bytes() || m == "jg".spec_bytes() || m == "jl".spec_bytes() || m == "jge".spec_bytes() || m == "jle".spec_bytes() || m == "call".spec_bytes() || m == "ret".spec_bytes() || m == "loop".spec_bytes()
            ==> crate::instruction::spec_categorize(m, ArchKind::X86_64) == Category::ControlFlow
                && crate::instruction::listing_counts(seq![Some(m)], ArchKind::X86_64) == (1int, 0int, 0int, 0int, 1int, 0int),
        m == "syscall".spec_bytes() || m == "sysenter".spec_bytes() || m == "int".spec_bytes() || m == "in".spec_bytes() || m == "out".spec_bytes()
            ==> crate::instruction::spec_categorize(m, ArchKind::X86_64) == Category::System
                && crate::instruction::listing_counts(seq![Some(m)], ArchKind::X86_64) == (1int, 0int, 0int, 0int, 0int, 1int),
        !(m == "add".spec_bytes() || m == "and".spec_bytes() || m == "call".spec_bytes() || m == "dec".spec_bytes() || m == "div".spec_bytes() || m == "idiv".spec_bytes() || m == "imul".spec_bytes() || m == "in".spec_bytes() || m == "inc".spec_bytes() || m == "int".spec_bytes() || m == "je".spec_bytes() || m == "jg".spec_bytes() || m == "jge".spec_bytes() || m == "jl".spec_bytes() || m == "jle".spec_bytes() || m == "jmp".spec_bytes() || m == "jne".spec_bytes() || m == "jnz".spec_bytes() || m == "jz".spec_bytes() || m == "lea".spec_bytes() || m == "loop".spec_bytes() || m == "mov".spec_bytes() || m == "movsx".spec_bytes() || m == "movzx".spec_bytes() || m == "mul".spec_bytes() || m == "not".spec_bytes() || m == "or".spec_bytes() || m == "out".spec_bytes() || m == "pop".spec_bytes() || m == "push".spec_bytes() || m == "ret".spec_bytes() || m == "rol".spec_bytes() || m == "ror".spec_bytes() || m == "sar".spec_bytes() || m == "shl".spec_bytes() || m == "shr".spec_bytes() || m == "sub".spec_bytes() || m == "syscall".spec_bytes() || m == "sysenter".spec_bytes() || m == "xor".spec_bytes())
            ==> crate::instruction::spec_categorize(m, ArchKind::X86_64) == Category::Other,
{
    if m == "mov".spec_bytes() || m == "movzx".spec_bytes() || m == "movsx".spec_bytes() || m == "lea".spec_bytes() || m == "push".spec_bytes() || m == "pop".spec_bytes() {
        lemma_x86_mov_words(m);
    }
    if m == "add".spec_bytes() || m == "sub".spec_bytes() || m == "mul".spec_bytes() || m == "imul".spec_bytes() || m == "div".spec_bytes() || m == "idiv".spec_bytes() || m == "inc".spec_bytes() || m == "dec".spec_bytes() {
        lemma_x86_arithmetic_words(m);
    }
    if m == "and".spec_bytes() || m == "or".spec_bytes() || m == "xor".spec_bytes() || m == "not".spec_bytes() || m == "shl".spec_bytes() || m == "shr".spec_bytes() || m == "sar".spec_bytes() || m == "rol".spec_bytes() || m == "ror".spec_bytes() {
        lemma_x86_logic_words(m);
    }
    if m == "jmp".spec_bytes() || m == "je".spec_bytes() || m == "jne".spec_bytes() || m == "jz".spec_bytes() || m == "jnz".spec_bytes() || m == "jg".spec_bytes() || m == "jl".spec_bytes() || m == "jge".spec_bytes() || m == "jle".spec_bytes() || m == "call".spec_bytes() || m == "ret".spec_bytes() || m == "loop".spec_bytes() {
        lemma_x86_controlflow_words(m);
    }
    if m == "syscall".spec_bytes() || m == "sysenter".spec_bytes() || m == "int".spec_bytes() || m == "in".spec_bytes() || m == "out".spec_bytes() {
        lemma_x86_system_words(m);
    }
    if !(m == "add".spec_bytes() || m == "and".spec_bytes() || m == "call".spec_bytes() || m == "dec".spec_bytes() || m == "div".spec_bytes() || m == "idiv".spec_bytes() || m == "imul".spec_bytes() || m == "in".spec_bytes() || m == "inc".spec_bytes() || m == "int".spec_bytes() || m == "je".spec_bytes() || m == "jg".spec_bytes() || m == "jge".spec_bytes() || m == "jl".spec_bytes() || m == "jle".spec_bytes() || m == "jmp".spec_bytes() || m == "jne".spec_bytes() || m == "jnz".spec_bytes() || m == "jz".spec_bytes() || m == "lea".spec_bytes() || m == "loop".spec_bytes() || m == "mov".spec_bytes() || m == "movsx".spec_bytes() || m == "movzx".spec_bytes() || m == "mul".spec_bytes() || m == "not".spec_bytes() || m == "or".spec_bytes() || m == "out".spec_bytes() || m == "pop".spec_bytes() || m == "push".spec_bytes() || m == "ret".spec_bytes() || m == "rol".spec_bytes() || m == "ror".spec_bytes() || m == "sar".spec_bytes() || m == "shl".spec_bytes() || m == "shr".spec_bytes() || m == "sub".spec_bytes() || m == "syscall".spec_bytes() || m == "sysenter".spec_bytes() || m == "xor".spec_bytes()) {
        lemma_x86_other_words(m);
    }
}

proof fn lemma_arm64_word_mov()
    ensures
        crate::instruction::spec_categorize_arm64("mov".spec_bytes()) == Category::Mov,
{
    reveal_strlit("mov");
    lemma_not_conditional("mov");
    assert(ARM64_MOV@[0] == "mov");
}

proof fn lemma_arm64_word_movz()
    ensures
        crate::instruction::spec_categorize_arm64("movz".spec_bytes()) == Category::Mov,
{
    reveal_strlit("movz");
    lemma_not_conditional("movz");
    assert(ARM64_MOV@[1] == "movz");
}

proof fn lemma_arm64_word_movn()
    ensures
        crate::instruction::spec_categorize_arm64("movn".spec_bytes()) == Category::Mov,
{
    reveal_strlit("movn");
    lemma_not_conditional("movn");
    assert(ARM64_MOV@[2] == "movn");
}

proof fn lemma_arm64_word_movk()
    ensures
        crate::instruction::spec_categorize_arm64("movk".spec_bytes()) == Category::Mov,
{
    reveal_strlit("movk");
    lemma_not_conditional("movk");
    assert(ARM64_MOV@[3] == "movk");
}

proof fn lemma_arm64_word_ldr()
    ensures
        crate::instruction::spec_categorize_arm64("ldr".spec_bytes()) == Category::Mov,
{
    reveal_strlit("ldr");
    lemma_not_conditional("ldr");
    assert(ARM64_MOV@[4] == "ldr");
}

proof fn lemma_arm64_word_str()
    ensures
        crate::instruction::spec_categorize_arm64("str".spec_bytes()) == Category::Mov,
{
    reveal_strlit("str");
    lemma_not_conditional("str");
    assert(ARM64_MOV@[5] == "str");
}

proof fn lemma_arm64_word_ldp()
    ensures
        crate::instruction::spec_categorize_arm64("ldp".spec_bytes()) == Category::Mov,
{
    reveal_strlit("ldp");
    lemma_not_conditional("ldp");
    assert(ARM64_MOV@[6] == "ldp");
}

proof fn lemma_arm64_word_stp()
    ensures
        crate::instruction::spec_categorize_arm64("stp".spec_bytes()) == Category::Mov,
{
    reveal_strlit("stp");
    lemma_not_conditional("stp");
    assert(ARM64_MOV@[7] == "stp");
}

proof fn lemma_arm64_word_ldur()
    ensures
        crate::instruction::spec_categorize_arm64("ldur".spec_bytes()) == Category::Mov,
{
    reveal_strlit("ldur");
    lemma_not_conditional("ldur");
    assert(ARM64_MOV@[8] == "ldur");
}

proof fn lemma_arm64_word_stur()
    ensures
        crate::instruction::spec_categorize_arm64("stur".spec_bytes()) == Category::Mov,
{
    reveal_strlit("stur");
    lemma_not_conditional("stur");
    assert(ARM64_MOV@[9] == "stur");
}

proof fn lemma_arm64_word_adr()
    ensures
        crate::instruction::spec_categorize_arm64("adr".spec_bytes()) == Category::Mov,
{
    reveal_strlit("adr");
    lemma_not_conditional("adr");
    assert(ARM64_MOV@[10] == "adr");
}

proof fn lemma_arm64_word_adrp()
    ensures
        crate::instruction::spec_categorize_arm64("adrp".spec_bytes()) == Category::Mov,
{
    reveal_strlit("adrp");
    lemma_not_conditional("adrp");
    assert(ARM64_MOV@[11] == "adrp");
}

proof fn lemma_arm64_word_ldrb()
    ensures
        crate::instruction::spec_categorize_arm64("ldrb".spec_bytes()) == Category::Mov,
{
    reveal_strlit("ldrb");
    lemma_not_conditional("ldrb");
    assert(ARM64_MOV@[12] == "ldrb");
}

proof fn lemma_arm64_word_strb()
    ensures
        crate::instruction::spec_categorize_arm64("strb".spec_bytes()) == Category::Mov,
{
    reveal_strlit("strb");
    lemma_not_conditional("strb");
    assert(ARM64_MOV@[13] == "strb");
}

proof fn lemma_arm64_word_ldrh()
    ensures
        crate::instruction::spec_categorize_arm64("ldrh".spec_bytes()) == Category::Mov,
{
    reveal_strlit("ldrh");
    lemma_not_conditional("ldrh");
    assert(ARM64_MOV@[14] == "ldrh");
}

proof fn lemma_arm64_word_strh()
    ensures
        crate::instruction::spec_categorize_arm64("strh".spec_bytes()) == Category::Mov,
{
    reveal_strlit("strh");
    lemma_not_conditional("strh");
    assert(ARM64_MOV@[15] == "strh");
}

proof fn lemma_arm64_mov_words(m: Seq<u8>)
    requires
        m == "mov".spec_bytes() || m == "movz".spec_bytes() || m == "movn".spec_bytes() || m == "movk".spec_bytes() || m == "ldr".spec_bytes() || m == "str".spec_bytes() || m == "ldp".spec_bytes() || m == "stp".spec_bytes() || m == "ldur".spec_bytes() || m == "stur".spec_bytes() || m == "adr".spec_bytes() || m == "adrp".spec_bytes() || m == "ldrb".spec_bytes() || m == "strb".spec_bytes() || m == "ldrh".spec_bytes() || m == "strh".spec_bytes(),
    ensures
        crate::instruction::spec_categorize_arm64(m) == Category::Mov,
        crate::instruction::spec_categorize(m, ArchKind::Arm64) == Category::Mov,
        crate::instruction::listing_counts(seq![Some(m)], ArchKind::Arm64) == (1int, 1int, 0int, 0int, 0int, 0int),
{
    if m == "mov".spec_bytes() {
        lemma_arm64_word_mov();
        reveal_strlit("mov");
        lemma_lower_fixed("mov");
    }
    if m == "movz".spec_bytes() {
        lemma_arm64_word_movz();
        reveal_strlit("movz");
        lemma_lower_fixed("movz");
    }
    if m == "movn".spec_bytes() {
        lemma_arm64_word_movn();
        reveal_strlit("movn");
        lemma_lower_fixed("movn");
    }
    if m == "movk".spec_bytes() {
        lemma_arm64_word_movk();
        reveal_strlit("movk");
        lemma_lower_fixed("movk");
    }
    if m == "ldr".spec_bytes() {
        lemma_arm64_word_ldr();
        reveal_strlit("ldr");
        lemma_lower_fixed("ldr");
    }
    if m == "str".spec_bytes() {
        lemma_arm64_word_str();
        reveal_strlit("str");
        lemma_lower_fixed("str");
    }
    if m == "ldp".spec_bytes() {
        lemma_arm64_word_ldp();
        reveal_strlit("ldp");
        lemma_lower_fixed("ldp");
    }
    if m == "stp".spec_bytes() {
        lemma_arm64_word_stp();
        reveal_strlit("stp");
        lemma_lower_fixed("stp");
    }
    if m == "ldur".spec_bytes() {
        lemma_arm64_word_ldur();
        reveal_strlit("ldur");
        lemma_lower_fixed("ldur");
    }
    if m == "stur".spec_bytes() {
        lemma_arm64_word_stur();
        reveal_strlit("stur");
        lemma_lower_fixed("stur");
    }
    if m == "adr".spec_bytes() {
        lemma_arm64_word_adr();
        reveal_strlit("adr");
        lemma_lower_fixed("adr");
    }
    if m == "adrp".spec_bytes() {
        lemma_arm64_word_adrp();
        reveal_strlit("adrp");
        lemma_lower_fixed("adrp");
    }
    if m == "ldrb".spec_bytes() {
        lemma_arm64_word_ldrb();
        reveal_strlit("ldrb");
        lemma_lower_fixed("ldrb");
    }
    if m == "strb".spec_bytes() {
        lemma_arm64_word_strb();
        reveal_strlit("strb");
        lemma_lower_fixed("strb");
    }
    if m == "ldrh".spec_bytes() {
        lemma_arm64_word_ldrh();
        reveal_strlit("ldrh");
        lemma_lower_fixed("ldrh");
    }
    if m == "strh".spec_bytes() {
        lemma_arm64_word_strh();
        reveal_strlit("strh");
        lemma_lower_fixed("strh");
    }
    assert(seq![Some(m)].drop_last() =~= Seq::<Option<Seq<u8>>>::empty());
    assert(seq![Some(m)].last() == Some(m));
    assert(crate::instruction::listing_counts(Seq::<Option<Seq<u8>>>::empty(), ArchKind::Arm64) == (0int, 0int, 0int, 0int, 0int, 0int));
}

proof fn lemma_arm64_word_add()
    ensures
        crate::instruction::spec_categorize_arm64("add".spec_bytes()) == Category::Arithmetic,
{
    reveal_strlit("add");
    lemma_not_conditional("add");
    assert(ARM64_ARITHMETIC@[0] == "add");
    assert forall|k: int| 0 <= k < 16 implies #[trigger] ARM64_MOV@[k].spec_bytes() != "add".spec_bytes() by {
        if k == 0 { assert(ARM64_MOV@[0] == "mov"); reveal_strlit("mov"); assert("mov"@[0] != "add"@[0]); lemma_words_differ("mov", "add"); }
        if k == 1 { assert(ARM64_MOV@[1] == "movz"); reveal_strlit("movz"); assert("movz"@.len() != "add"@.len()); lemma_words_differ("movz", "add"); }
        if k == 2 { assert(ARM64_MOV@[2] == "movn"); reveal_strlit("movn"); assert("movn"@.len() != "add"@.len()); lemma_words_differ("movn", "add"); }
        if k == 3 { assert(ARM64_MOV@[3] == "movk"); reveal_strlit("movk"); assert("movk"@.len() != "add"@.len()); lemma_words_differ("movk", "add"); }
        if k == 4 { assert(ARM64_MOV@[4] == "ldr"); reveal_strlit("ldr"); assert("ldr"@[0] != "add"@[0]); lemma_words_differ("ldr", "add"); }
        if k == 5 { assert(ARM64_MOV@[5] == "str"); reveal_strlit("str"); assert("str"@[0] != "add"@[0]); lemma_words_differ("str", "add"); }
        if k == 6 { assert(ARM64_MOV@[6] == "ldp"); reveal_strlit("ldp"); assert("ldp"@[0] != "add"@[0]); lemma_words_differ("ldp", "add"); }
        if k == 7 { assert(ARM64_MOV@[7] == "stp"); reveal_strlit("stp"); assert("stp"@[0] != "add"@[0]); lemma_words_differ("stp", "add"); }
        if k == 8 { assert(ARM64_MOV@[8] == "ldur"); reveal_strlit("ldur"); assert("ldur"@.len() != "add"@.len()); lemma_words_differ("ldur", "add"); }
        if k == 9 { assert(ARM64_MOV@[9] == "stur"); reveal_strlit("stur"); assert("stur"@.len() != "add"@.len()); lemma_words_differ("stur", "add"); }
        if k == 10 { assert(ARM64_MOV@[10] == "adr"); reveal_strlit("adr"); assert("adr"@[2] != "add"@[2]); lemma_words_differ("adr", "add"); }
        if k == 11 { assert(ARM64_MOV@[11] == "adrp"); reveal_strlit("adrp"); assert("adrp"@.len() != "add"@.len()); lemma_words_differ("adrp", "add"); }
        if k == 12 { assert(ARM64_MOV@[12] == "ldrb"); reveal_strlit("ldrb"); assert("ldrb"@.len() != "add"@.len()); lemma_words_differ("ldrb", "add"); }
        if k == 13 { assert(ARM64_MOV@[13] == "strb"); reveal_strlit("strb"); assert("strb"@.len() != "add"@.len()); lemma_words_differ("strb", "add"); }
        if k == 14 { assert(ARM64_MOV@[14] == "ldrh"); reveal_strlit("ldrh"); assert("ldrh"@.len() != "add"@.len()); lemma_words_differ("ldrh", "add"); }
        if k == 15 { assert(ARM64_MOV@[15] == "strh"); reveal_strlit("strh"); assert("strh"@.len() != "add"@.len()); lemma_words_differ("strh", "add"); }
    }
}

proof fn lemma_arm64_word_sub()
    ensures
        crate::instruction::spec_categorize_arm64("sub".spec_bytes()) == Category::Arithmetic,
{
    reveal_strlit("sub");
    lemma_not_conditional("sub");
    assert(ARM64_ARITHMETIC@[1] == "sub");
    assert forall|k: int| 0 <= k < 16 implies #[trigger] ARM64_MOV@[k].spec_bytes() != "sub".spec_bytes() by {
        if k == 0 { assert(ARM64_MOV@[0] == "mov"); reveal_strlit("mov"); assert("mov"@[0] != "sub"@[0]); lemma_words_differ("mov", "sub"); }
        if k == 1 { assert(ARM64_MOV@[1] == "movz"); reveal_strlit("movz"); assert("movz"@.len() != "sub"@.len()); lemma_words_differ("movz", "sub"); }
        if k == 2 { assert(ARM64_MOV@[2] == "movn"); reveal_strlit("movn"); assert("movn"@.len() != "sub"@.len()); lemma_words_differ("movn", "sub"); }
        if k == 3 { assert(ARM64_MOV@[3] == "movk"); reveal_strlit("movk"); assert("movk"@.len() != "sub"@.len()); lemma_words_differ("movk", "sub"); }
        if k == 4 { assert(ARM64_MOV@[4] == "ldr"); reveal_strlit("ldr"); assert("ldr"@[0] != "sub"@[0]); lemma_words_differ("ldr", "sub"); }
        if k == 5 { assert(ARM64_MOV@[5] == "str"); reveal_strlit("str"); assert("str"@[1] != "sub"@[1]); lemma_words_differ("str", "sub"); }
        if k == 6 { assert(ARM64_MOV@[6] == "ldp"); reveal_strlit("ldp"); assert("ldp"@[0] != "sub"@[0]); lemma_words_differ("ldp", "sub"); }
        if k == 7 { assert(ARM64_MOV@[7] == "stp"); reveal_strlit("stp"); assert("stp"@[1] != "sub"@[1]); lemma_words_differ("stp", "sub"); }
        if k == 8 { assert(ARM64_MOV@[8] == "ldur"); reveal_strlit("ldur"); assert("ldur"@.len() != "sub"@.len()); lemma_words_differ("ldur", "sub"); }
        if k == 9 { assert(ARM64_MOV@[9] == "stur"); reveal_strlit("stur"); assert("stur"@.len() != "sub"@.len()); lemma_words_differ("stur", "sub"); }
        if k == 10 { assert(ARM64_MOV@[10] == "adr"); reveal_strlit("adr"); assert("adr"@[0] != "sub"@[0]); lemma_words_differ("adr", "sub"); }
        if k == 11 { assert(ARM64_MOV@[11] == "adrp"); reveal_strlit("adrp"); assert("adrp"@.len() != "sub"@.len()); lemma_words_differ("adrp", "sub"); }
        if k == 12 { assert(ARM64_MOV@[12] == "ldrb"); reveal_strlit("ldrb"); assert("ldrb"@.len() != "sub"@.len()); lemma_words_differ("ldrb", "sub"); }
        if k == 13 { assert(ARM64_MOV@[13] == "strb"); reveal_strlit("strb"); assert("strb"@.len() != "sub"@.len()); lemma_words_differ("strb", "sub"); }
        if k == 14 { assert(ARM64_MOV@[14] == "ldrh"); reveal_strlit("ldrh"); assert("ldrh"@.len() != "sub"@.len()); lemma_words_differ("ldrh", "sub"); }
        if k == 15 { assert(ARM64_MOV@[15] == "strh"); reveal_strlit("strh"); assert("strh"@.len() != "sub"@.len()); lemma_words_differ("strh", "sub"); }
    }
}

proof fn lemma_arm64_word_mul()
    ensures
        crate::instruction::spec_categorize_arm64("mul".spec_bytes()) == Category::Arithmetic,
{
    reveal_strlit("mul");
    lemma_not_conditional("mul");
    assert(ARM64_ARITHMETIC@[2] == "mul");
    assert forall|k: int| 0 <= k < 16 implies #[trigger] ARM64_MOV@[k].spec_bytes() != "mul".spec_bytes() by {
        if k == 0 { assert(ARM64_MOV@[0] == "mov"); reveal_strlit("mov"); assert("mov"@[1] != "mul"@[1]); lemma_words_differ("mov", "mul"); }
        if k == 1 { assert(ARM64_MOV@[1] == "movz"); reveal_strlit("movz"); assert("movz"@.len() != "mul"@.len()); lemma_words_differ("movz", "mul"); }
        if k == 2 { assert(ARM64_MOV@[2] == "movn"); reveal_strlit("movn"); assert("movn"@.len() != "mul"@.len()); lemma_words_differ("movn", "mul"); }
        if k == 3 { assert(ARM64_MOV@[3] == "movk"); reveal_strlit("movk"); assert("movk"@.len() != "mul"@.len()); lemma_words_differ("movk", "mul"); }
        if k == 4 { assert(ARM64_MOV@[4] == "ldr"); reveal_strlit("ldr"); assert("ldr"@[0] != "mul"@[0]); lemma_words_differ("ldr", "mul"); }
        if k == 5 { assert(ARM64_MOV@[5] == "str"); reveal_strlit("str"); assert("str"@[0] != "mul"@[0]); lemma_words_differ("str", "mul"); }
        if k == 6 { assert(ARM64_MOV@[6] == "ldp"); reveal_strlit("ldp"); assert("ldp"@[0] != "mul"@[0]); lemma_words_differ("ldp", "mul"); }
        if k == 7 { assert(ARM64_MOV@[7] == "stp"); reveal_strlit("stp"); assert("stp"@[0] != "mul"@[0]); lemma_words_differ("stp", "mul"); }
        if k == 8 { assert(ARM64_MOV@[8] == "ldur"); reveal_strlit("ldur"); assert("ldur"@.len() != "mul"@.len()); lemma_words_differ("ldur", "mul"); }
        if k == 9 { assert(ARM64_MOV@[9] == "stur"); reveal_strlit("stur"); assert("stur"@.len() != "mul"@.len()); lemma_words_differ("stur", "mul"); }
        if k == 10 { assert(ARM64_MOV@[10] == "adr"); reveal_strlit("adr"); assert("adr"@[0] != "mul"@[0]); lemma_words_differ("adr", "mul"); }
        if k == 11 { assert(ARM64_MOV@[11] == "adrp"); reveal_strlit("adrp"); assert("adrp"@.len() != "mul"@.len()); lemma_words_differ("adrp", "mul"); }
        if k == 12 { assert(ARM64_MOV@[12] == "ldrb"); reveal_strlit("ldrb"); assert("ldrb"@.len() != "mul"@.len()); lemma_words_differ("ldrb", "mul"); }
        if k == 13 { assert(ARM64_MOV@[13] == "strb"); reveal_strlit("strb"); assert("strb"@.len() != "mul"@.len()); lemma_words_differ("strb", "mul"); }
        if k == 14 { assert(ARM64_MOV@[14] == "ldrh"); reveal_strlit("ldrh"); assert("ldrh"@.len() != "mul"@.len()); lemma_words_differ("ldrh", "mul"); }
        if k == 15 { assert(ARM64_MOV@[15] == "strh"); reveal_strlit("strh"); assert("strh"@.len() != "mul"@.len()); lemma_words_differ("strh", "mul"); }
    }
}

proof fn lemma_arm64_word_madd()
    ensures
        crate::instruction::spec_categorize_arm64("madd".spec_bytes()) == Category::Arithmetic,
{
    reveal_strlit("madd");
    lemma_not_conditional("madd");
    assert(ARM64_ARITHMETIC@[3] == "madd");
    assert forall|k: int| 0 <= k < 16 implies #[trigger] ARM64_MOV@[k].spec_bytes() != "madd".spec_bytes() by {
        if k == 0 { assert(ARM64_MOV@[0] == "mov"); reveal_strlit("mov"); assert("mov"@.len() != "madd"@.len()); lemma_words_differ("mov", "madd"); }
        if k == 1 { assert(ARM64_MOV@[1] == "movz"); reveal_strlit("movz"); assert("movz"@[1] != "madd"@[1]); lemma_words_differ("movz", "madd"); }
        if k == 2 { assert(ARM64_MOV@[2] == "movn"); reveal_strlit("movn"); assert("movn"@[1] != "madd"@[1]); lemma_words_differ("movn", "madd"); }
        if k == 3 { assert(ARM64_MOV@[3] == "movk"); reveal_strlit("movk"); assert("movk"@[1] != "madd"@[1]); lemma_words_differ("movk", "madd"); }
        if k == 4 { assert(ARM64_MOV@[4] == "ldr"); reveal_strlit("ldr"); assert("ldr"@.len() != "madd"@.len()); lemma_words_differ("ldr", "madd"); }
        if k == 5 { assert(ARM64_MOV@[5] == "str"); reveal_strlit("str"); assert("str"@.len() != "madd"@.len()); lemma_words_differ("str", "madd"); }
        if k == 6 { assert(ARM64_MOV@[6] == "ldp"); reveal_strlit("ldp"); assert("ldp"@.len() != "madd"@.len()); lemma_words_differ("ldp", "madd"); }
        if k == 7 { assert(ARM64_MOV@[7] == "stp"); reveal_strlit("stp"); assert("stp"@.len() != "madd"@.len()); lemma_words_differ("stp", "madd"); }
        if k == 8 { assert(ARM64_MOV@[8] == "ldur"); reveal_strlit("ldur"); assert("ldur"@[0] != "madd"@[0]); lemma_words_differ("ldur", "madd"); }
        if k == 9 { assert(ARM64_MOV@[9] == "stur"); reveal_strlit("stur"); assert("stur"@[0] != "madd"@[0]); lemma_words_differ("stur", "madd"); }
        if k == 10 { assert(ARM64_MOV@[10] == "adr"); reveal_strlit("adr"); assert("adr"@.len() != "madd"@.len()); lemma_words_differ("adr", "madd"); }
        if k == 11 { assert(ARM64_MOV@[11] == "adrp"); reveal_strlit("adrp"); assert("adrp"@[0] != "madd"@[0]); lemma_words_differ("adrp", "madd"); }
        if k == 12 { assert(ARM64_MOV@[12] == "ldrb"); reveal_strlit("ldrb"); assert("ldrb"@[0] != "madd"@[0]); lemma_words_differ("ldrb", "madd"); }
        if k == 13 { assert(ARM64_MOV@[13] == "strb"); reveal_strlit("strb"); assert("strb"@[0] != "madd"@[0]); lemma_words_differ("strb", "madd"); }
        if k == 14 { assert(ARM64_MOV@[14] == "ldrh"); reveal_strlit("ldrh"); assert("ldrh"@[0] != "madd"@[0]); lemma_words_differ("ldrh", "madd"); }
        if k == 15 { assert(ARM64_MOV@[15] == "strh"); reveal_strlit("strh"); assert("strh"@[0] != "madd"@[0]); lemma_words_differ("strh", "madd"); }
    }
}

proof fn lemma_arm64_word_msub()
    ensures
        crate::instruction::spec_categorize_arm64("msub".spec_bytes()) == Category::Arithmetic,
{
    reveal_strlit("msub");
    lemma_not_conditional("msub");
    assert(ARM64_ARITHMETIC@[4] == "msub");
    assert forall|k: int| 0 <= k < 16 implies #[trigger] ARM64_MOV@[k].spec_bytes() != "msub".spec_bytes() by {
        if k == 0 { assert(ARM64_MOV@[0] == "mov"); reveal_strlit("mov"); assert("mov"@.len() != "msub"@.len()); lemma_words_differ("mov", "msub"); }
        if k == 1 { assert(ARM64_MOV@[1] == "movz"); reveal_strlit("movz"); assert("movz"@[1] != "msub"@[1]); lemma_words_differ("movz", "msub"); }
        if k == 2 { assert(ARM64_MOV@[2] == "movn"); reveal_strlit("movn"); assert("movn"@[1] != "msub"@[1]); lemma_words_differ("movn", "msub"); }
        if k == 3 { assert(ARM64_MOV@[3] == "movk"); reveal_strlit("movk"); assert("movk"@[1] != "msub"@[1]); lemma_words_differ("movk", "msub"); }
        if k == 4 { assert(ARM64_MOV@[4] == "ldr"); reveal_strlit("ldr"); assert("ldr"@.len() != "msub"@.len()); lemma_words_differ("ldr", "msub"); }
        if k == 5 { assert(ARM64_MOV@[5] == "str"); reveal_strlit("str"); assert("str"@.len() != "msub"@.len()); lemma_words_differ("str", "msub"); }
        if k == 6 { assert(ARM64_MOV@[6] == "ldp"); reveal_strlit("ldp"); assert("ldp"@.len() != "msub"@.len()); lemma_words_differ("ldp", "msub"); }
        if k == 7 { assert(ARM64_MOV@[7] == "stp"); reveal_strlit("stp"); assert("stp"@.len() != "msub"@.len()); lemma_words_differ("stp", "msub"); }
        if k == 8 { assert(ARM64_MOV@[8] == "ldur"); reveal_strlit("ldur"); assert("ldur"@[0] != "msub"@[0]); lemma_words_differ("ldur", "msub"); }
        if k == 9 { assert(ARM64_MOV@[9] == "stur"); reveal_strlit("stur"); assert("stur"@[0] != "msub"@[0]); lemma_words_differ("stur", "msub"); }
        if k == 10 { assert(ARM64_MOV@[10] == "adr"); reveal_strlit("adr"); assert("adr"@.len() != "msub"@.len()); lemma_words_differ("adr", "msub"); }
        if k == 11 { assert(ARM64_MOV@[11] == "adrp"); reveal_strlit("adrp"); assert("adrp"@[0] != "msub"@[0]); lemma_words_differ("adrp", "msub"); }
        if k == 12 { assert(ARM64_MOV@[12] == "ldrb"); reveal_strlit("ldrb"); assert("ldrb"@[0] != "msub"@[0]); lemma_words_differ("ldrb", "msub"); }
        if k == 13 { assert(ARM64_MOV@[13] == "strb"); reveal_strlit("strb"); assert("strb"@[0] != "msub"@[0]); lemma_words_differ("strb", "msub"); }
        if k == 14 { assert(ARM64_MOV@[14] == "ldrh"); reveal_strlit("ldrh"); assert("ldrh"@[0] != "msub"@[0]); lemma_words_differ("ldrh", "msub"); }
        if k == 15 { assert(ARM64_MOV@[15] == "strh"); reveal_strlit("strh"); assert("strh"@[0] != "msub"@[0]); lemma_words_differ("strh", "msub"); }
    }
}

proof fn lemma_arm64_word_sdiv()
    ensures
        crate::instruction::spec_categorize_arm64("sdiv".spec_bytes()) == Category::Arithmetic,
{
    reveal_strlit("sdiv");
    lemma_not_conditional("sdiv");
    assert(ARM64_ARITHMETIC@[5] == "sdiv");
    assert forall|k: int| 0 <= k < 16 implies #[trigger] ARM64_MOV@[k].spec_bytes() != "sdiv".spec_bytes() by {
        if k == 0 { assert(ARM64_MOV@[0] == "mov"); reveal_strlit("mov"); assert("mov"@.len() != "sdiv"@.len()); lemma_words_differ("mov", "sdiv"); }
        if k == 1 { assert(ARM64_MOV@[1] == "movz"); reveal_strlit("movz"); assert("movz"@[0] != "sdiv"@[0]); lemma_words_differ("movz", "sdiv"); }
        if k == 2 { assert(ARM64_MOV@[2] == "movn"); reveal_strlit("movn"); assert("movn"@[0] != "sdiv"@[0]); lemma_words_differ("movn", "sdiv"); }
        if k == 3 { assert(ARM64_MOV@[3] == "movk"); reveal_strlit("movk"); assert("movk"@[0] != "sdiv"@[0]); lemma_words_differ("movk", "sdiv"); }
        if k == 4 { assert(ARM64_MOV@[4] == "ldr"); reveal_strlit("ldr"); assert("ldr"@.len() != "sdiv"@.len()); lemma_words_differ("ldr", "sdiv"); }
        if k == 5 { assert(ARM64_MOV@[5] == "str"); reveal_strlit("str"); assert("str"@.len() != "sdiv"@.len()); lemma_words_differ("str", "sdiv"); }
        if k == 6 { assert(ARM64_MOV@[6] == "ldp"); reveal_strlit("ldp"); assert("ldp"@.len() != "sdiv"@.len()); lemma_words_differ("ldp", "sdiv"); }
        if k == 7 { assert(ARM64_MOV@[7] == "stp"); reveal_strlit("stp"); assert("stp"@.len() != "sdiv"@.len()); lemma_words_differ("stp", "sdiv"); }
        if k == 8 { assert(ARM64_MOV@[8] == "ldur"); reveal_strlit("ldur"); assert("ldur"@[0] != "sdiv"@[0]); lemma_words_differ("ldur", "sdiv"); }
        if k == 9 { assert(ARM64_MOV@[9] == "stur"); reveal_strlit("stur"); assert("stur"@[1] != "sdiv"@[1]); lemma_words_differ("stur", "sdiv"); }
        if k == 10 { assert(ARM64_MOV@[10] == "adr"); reveal_strlit("adr"); assert("adr"@.len() != "sdiv"@.len()); lemma_words_differ("adr", "sdiv"); }
        if k == 11 { assert(ARM64_MOV@[11] == "adrp"); reveal_strlit("adrp"); assert("adrp"@[0] != "sdiv"@[0]); lemma_words_differ("adrp", "sdiv"); }
        if k == 12 { assert(ARM64_MOV@[12] == "ldrb"); reveal_strlit("ldrb"); assert("ldrb"@[0] != "sdiv"@[0]); lemma_words_differ("ldrb", "sdiv"); }
        if k == 13 { assert(ARM64_MOV@[13] == "strb"); reveal_strlit("strb"); assert("strb"@[1] != "sdiv"@[1]); lemma_words_differ("strb", "sdiv"); }
        if k == 14 { assert(ARM64_MOV@[14] == "ldrh"); reveal_strlit("ldrh"); assert("ldrh"@[0] != "sdiv"@[0]); lemma_words_differ("ldrh", "sdiv"); }
        if k == 15 { assert(ARM64_MOV@[15] == "strh"); reveal_strlit("strh"); assert("strh"@[1] != "sdiv"@[1]); lemma_words_differ("strh", "sdiv"); }
    }
}

proof fn lemma_arm64_word_udiv()
    ensures
        crate::instruction::spec_categorize_arm64("udiv".spec_bytes()) == Category::Arithmetic,
{
    reveal_strlit("udiv");
    lemma_not_conditional("udiv");
    assert(ARM64_ARITHMETIC@[6] == "udiv");
    assert forall|k: int| 0 <= k < 16 implies #[trigger] ARM64_MOV@[k].spec_bytes() != "udiv".spec_bytes() by {
        if k == 0 { assert(ARM64_MOV@[0] == "mov"); reveal_strlit("mov"); assert("mov"@.len() != "udiv"@.len()); lemma_words_differ("mov", "udiv"); }
        if k == 1 { assert(ARM64_MOV@[1] == "movz"); reveal_strlit("movz"); assert("movz"@[0] != "udiv"@[0]); lemma_words_differ("movz", "udiv"); }
        if k == 2 { assert(ARM64_MOV@[2] == "movn"); reveal_strlit("movn"); assert("movn"@[0] != "udiv"@[0]); lemma_words_differ("movn", "udiv"); }
        if k == 3 { assert(ARM64_MOV@[3] == "movk"); reveal_strlit("movk"); assert("movk"@[0] != "udiv"@[0]); lemma_words_differ("movk", "udiv"); }
        if k == 4 { assert(ARM64_MOV@[4] == "ldr"); reveal_strlit("ldr"); assert("ldr"@.len() != "udiv"@.len()); lemma_words_differ("ldr", "udiv"); }
        if k == 5 { assert(ARM64_MOV@[5] == "str"); reveal_strlit("str"); assert("str"@.len() != "udiv"@.len()); lemma_words_differ("str", "udiv"); }
        if k == 6 { assert(ARM64_MOV@[6] == "ldp"); reveal_strlit("ldp"); assert("ldp"@.len() != "udiv"@.len()); lemma_words_differ("ldp", "udiv"); }
        if k == 7 { assert(ARM64_MOV@[7] == "stp"); reveal_strlit("stp"); assert("stp"@.len() != "udiv"@.len()); lemma_words_differ("stp", "udiv"); }
        if k == 8 { assert(ARM64_MOV@[8] == "ldur"); reveal_strlit("ldur"); assert("ldur"@[0] != "udiv"@[0]); lemma_words_differ("ldur", "udiv"); }
        if k == 9 { assert(ARM64_MOV@[9] == "stur"); reveal_strlit("stur"); assert("stur"@[0] != "udiv"@[0]); lemma_words_differ("stur", "udiv"); }
        if k == 10 { assert(ARM64_MOV@[10] == "adr"); reveal_strlit("adr"); assert("adr"@.len() != "udiv"@.len()); lemma_words_differ("adr", "udiv"); }
        if k == 11 { assert(ARM64_MOV@[11] == "adrp"); reveal_strlit("adrp"); assert("adrp"@[0] != "udiv"@[0]); lemma_words_differ("adrp", "udiv"); }
        if k == 12 { assert(ARM64_MOV@[12] == "ldrb"); reveal_strlit("ldrb"); assert("ldrb"@[0] != "udiv"@[0]); lemma_words_differ("ldrb", "udiv"); }
        if k == 13 { assert(ARM64_MOV@[13] == "strb"); reveal_strlit("strb"); assert("strb"@[0] != "udiv"@[0]); lemma_words_differ("strb", "udiv"); }
        if k == 14 { assert(ARM64_MOV@[14] == "ldrh"); reveal_strlit("ldrh"); assert("ldrh"@[0] != "udiv"@[0]); lemma_words_differ("ldrh", "udiv"); }
        if k == 15 { assert(ARM64_MOV@[15] == "strh"); reveal_strlit("strh"); assert("strh"@[0] != "udiv"@[0]); lemma_words_differ("strh", "udiv"); }
    }
}

proof fn lemma_arm64_word_adc()
    ensures
        crate::instruction::spec_categorize_arm64("adc".spec_bytes()) == Category::Arithmetic,
{
    reveal_strlit("adc");
    lemma_not_conditional("adc");
    assert(ARM64_ARITHMETIC@[7] == "adc");
    assert forall|k: int| 0 <= k < 16 implies #[trigger] ARM64_MOV@[k].spec_bytes() != "adc".spec_bytes() by {
        if k == 0 { assert(ARM64_MOV@[0] == "mov"); reveal_strlit("mov"); assert("mov"@[0] != "adc"@[0]); lemma_words_differ("mov", "adc"); }
        if k == 1 { assert(ARM64_MOV@[1] == "movz"); reveal_strlit("movz"); assert("movz"@.len() != "adc"@.len()); lemma_words_differ("movz", "adc"); }
        if k == 2 { assert(ARM64_MOV@[2] == "movn"); reveal_strlit("movn"); assert("movn"@.len() != "adc"@.len()); lemma_words_differ("movn", "adc"); }
        if k == 3 { assert(ARM64_MOV@[3] == "movk"); reveal_strlit("movk"); assert("movk"@.len() != "adc"@.len()); lemma_words_differ("movk", "adc"); }
        if k == 4 { assert(ARM64_MOV@[4] == "ldr"); reveal_strlit("ldr"); assert("ldr"@[0] != "adc"@[0]); lemma_words_differ("ldr", "adc"); }
        if k == 5 { assert(ARM64_MOV@[5] == "str"); reveal_strlit("str"); assert("str"@[0] != "adc"@[0]); lemma_words_differ("str", "adc"); }
        if k == 6 { assert(ARM64_MOV@[6] == "ldp"); reveal_strlit("ldp"); assert("ldp"@[0] != "adc"@[0]); lemma_words_differ("ldp", "adc"); }
        if k == 7 { assert(ARM64_MOV@[7] == "stp"); reveal_strlit("stp"); assert("stp"@[0] != "adc"@[0]); lemma_words_differ("stp", "adc"); }
        if k == 8 { assert(ARM64_MOV@[8] == "ldur"); reveal_strlit("ldur"); assert("ldur"@.len() != "adc"@.len()); lemma_words_differ("ldur", "adc"); }
        if k == 9 { assert(ARM64_MOV@[9] == "stur"); reveal_strlit("stur"); assert("stur"@.len() != "adc"@.len()); lemma_words_differ("stur", "adc"); }
        if k == 10 { assert(ARM64_MOV@[10] == "adr"); reveal_strlit("adr"); assert("adr"@[2] != "adc"@[2]); lemma_words_differ("adr", "adc"); }
        if k == 11 { assert(ARM64_MOV@[11] == "adrp"); reveal_strlit("adrp"); assert("adrp"@.len() != "adc"@.len()); lemma_words_differ("adrp", "adc"); }
        if k == 12 { assert(ARM64_MOV@[12] == "ldrb"); reveal_strlit("ldrb"); assert("ldrb"@.len() != "adc"@.len()); lemma_words_differ("ldrb", "adc"); }
        if k == 13 { assert(ARM64_MOV@[13] == "strb"); reveal_strlit("strb"); assert("strb"@.len() != "adc"@.len()); lemma_words_differ("strb", "adc"); }
        if k == 14 { assert(ARM64_MOV@[14] == "ldrh"); reveal_strlit("ldrh"); assert("ldrh"@.len() != "adc"@.len()); lemma_words_differ("ldrh", "adc"); }
        if k == 15 { assert(ARM64_MOV@[15] == "strh"); reveal_strlit("strh"); assert("strh"@.len() != "adc"@.len()); lemma_words_differ("strh", "adc"); }
    }
}

proof fn lemma_arm64_word_sbc()
    ensures
        crate::instruction::spec_categorize_arm64("sbc".spec_bytes()) == Category::Arithmetic,
{
    reveal_strlit("sbc");
    lemma_not_conditional("sbc");
    assert(ARM64_ARITHMETIC@[8] == "sbc");
    assert forall|k: int| 0 <= k < 16 implies #[trigger] ARM64_MOV@[k].spec_bytes() != "sbc".spec_bytes() by {
        if k == 0 { assert(ARM64_MOV@[0] == "mov"); reveal_strlit("mov"); assert("mov"@[0] != "sbc"@[0]); lemma_words_differ("mov", "sbc"); }
        if k == 1 { assert(ARM64_MOV@[1] == "movz"); reveal_strlit("movz"); assert("movz"@.len() != "sbc"@.len()); lemma_words_differ("movz", "sbc"); }
        if k == 2 { assert(ARM64_MOV@[2] == "movn"); reveal_strlit("movn"); assert("movn"@.len() != "sbc"@.len()); lemma_words_differ("movn", "sbc"); }
        if k == 3 { assert(ARM64_MOV@[3] == "movk"); reveal_strlit("movk"); assert("movk"@.len() != "sbc"@.len()); lemma_words_differ("movk", "sbc"); }
        if k == 4 { assert(ARM64_MOV@[4] == "ldr"); reveal_strlit("ldr"); assert("ldr"@[0] != "sbc"@[0]); lemma_words_differ("ldr", "sbc"); }
        if k == 5 { assert(ARM64_MOV@[5] == "str"); reveal_strlit("str"); assert("str"@[1] != "sbc"@[1]); lemma_words_differ("str", "sbc"); }
        if k == 6 { assert(ARM64_MOV@[6] == "ldp"); reveal_strlit("ldp"); assert("ldp"@[0] != "sbc"@[0]); lemma_words_differ("ldp", "sbc"); }
        if k == 7 { assert(ARM64_MOV@[7] == "stp"); reveal_strlit("stp"); assert("stp"@[1] != "sbc"@[1]); lemma_words_differ("stp", "sbc"); }
        if k == 8 { assert(ARM64_MOV@[8] == "ldur"); reveal_strlit("ldur"); assert("ldur"@.len() != "sbc"@.len()); lemma_words_differ("ldur", "sbc"); }
        if k == 9 { assert(ARM64_MOV@[9] == "stur"); reveal_strlit("stur"); assert("stur"@.len() != "sbc"@.len()); lemma_words_differ("stur", "sbc"); }
        if k == 10 { assert(ARM64_MOV@[10] == "adr"); reveal_strlit("adr"); assert("adr"@[0] != "sbc"@[0]); lemma_words_differ("adr", "sbc"); }
        if k == 11 { assert(ARM64_MOV@[11] == "adrp"); reveal_strlit("adrp"); assert("adrp"@.len() != "sbc"@.len()); lemma_words_differ("adrp", "sbc"); }
        if k == 12 { assert(ARM64_MOV@[12] == "ldrb"); reveal_strlit("ldrb"); assert("ldrb"@.len() != "sbc"@.len()); lemma_words_differ("ldrb", "sbc"); }
        if k == 13 { assert(ARM64_MOV@[13] == "strb"); reveal_strlit("strb"); assert("strb"@.len() != "sbc"@.len()); lemma_words_differ("strb", "sbc"); }
        if k == 14 { assert(ARM64_MOV@[14] == "ldrh"); reveal_strlit("ldrh"); assert("ldrh"@.len() != "sbc"@.len()); lemma_words_differ("ldrh", "sbc"); }
        if k == 15 { assert(ARM64_MOV@[15] == "strh"); reveal_strlit("strh"); assert("strh"@.len() != "sbc"@.len()); lemma_words_differ("strh", "sbc"); }
    }
}

proof fn lemma_arm64_arithmetic_words(m: Seq<u8>)
    requires
        m == "add".spec_bytes() || m == "sub".spec_bytes() || m == "mul".spec_bytes() || m == "madd".spec_bytes() || m == "msub".spec_bytes() || m == "sdiv".spec_bytes() || m == "udiv".spec_bytes() || m == "adc".spec_bytes() || m == "sbc".spec_bytes(),
    ensures
        crate::instruction::spec_categorize_arm64(m) == Category::Arithmetic,
        crate::instruction::spec_categorize(m, ArchKind::Arm64) == Category::Arithmetic,
        crate::instruction::listing_counts(seq![Some(m)], ArchKind::Arm64) == (1int, 0int, 1int, 0int, 0int, 0int),
{
    if m == "add".spec_bytes() {
        lemma_arm64_word_add();
        reveal_strlit("add");
        lemma_lower_fixed("add");
    }
    if m == "sub".spec_bytes() {
        lemma_arm64_word_sub();
        reveal_strlit("sub");
        lemma_lower_fixed("sub");
    }
    if m == "mul".spec_bytes() {
        lemma_arm64_word_mul();
        reveal_strlit("mul");
        lemma_lower_fixed("mul");
    }
    if m == "madd".spec_bytes() {
        lemma_arm64_word_madd();
        reveal_strlit("madd");
        lemma_lower_fixed("madd");
    }
    if m == "msub".spec_bytes() {
        lemma_arm64_word_msub();
        reveal_strlit("msub");
        lemma_lower_fixed("msub");
    }
    if m == "sdiv".spec_bytes() {
        lemma_arm64_word_sdiv();
        reveal_strlit("sdiv");
        lemma_lower_fixed("sdiv");
    }
    if m == "udiv".spec_bytes() {
        lemma_arm64_word_udiv();
        reveal_strlit("udiv");
        lemma_lower_fixed("udiv");
    }
    if m == "adc".spec_bytes() {
        lemma_arm64_word_adc();
        reveal_strlit("adc");
        lemma_lower_fixed("adc");
    }
    if m == "sbc".spec_bytes() {
        lemma_arm64_word_sbc();
        reveal_strlit("sbc");
        lemma_lower_fixed("sbc");
    }
    assert(seq![Some(m)].drop_last() =~= Seq::<Option<Seq<u8>>>::empty());
    assert(seq![Some(m)].last() == Some(m));
    assert(crate::instruction::listing_counts(Seq::<Option<Seq<u8>>>::empty(), ArchKind::Arm64) == (0int, 0int, 0int, 0int, 0int, 0int));
}

proof fn lemma_arm64_word_and()
    ensures
        crate::instruction::spec_categorize_arm64("and".spec_bytes()) == Category::Logic,
{
    reveal_strlit("and");
    lemma_not_conditional("and");
    assert(ARM64_LOGIC@[0] == "and");
    assert forall|k: int| 0 <= k < 16 implies #[trigger] ARM64_MOV@[k].spec_bytes() != "and".spec_bytes() by {
        if k == 0 { assert(ARM64_MOV@[0] == "mov"); reveal_strlit("mov"); assert("mov"@[0] != "and"@[0]); lemma_words_differ("mov", "and"); }
        if k == 1 { assert(ARM64_MOV@[1] == "movz"); reveal_strlit("movz"); assert("movz"@.len() != "and"@.len()); lemma_words_differ("movz", "and"); }
        if k == 2 { assert(ARM64_MOV@[2] == "movn"); reveal_strlit("movn"); assert("movn"@.len() != "and"@.len()); lemma_words_differ("movn", "and"); }
        if k == 3 { assert(ARM64_MOV@[3] == "movk"); reveal_strlit("movk"); assert("movk"@.len() != "and"@.len()); lemma_words_differ("movk", "and"); }
        if k == 4 { assert(ARM64_MOV@[4] == "ldr"); reveal_strlit("ldr"); assert("ldr"@[0] != "and"@[0]); lemma_words_differ("ldr", "and"); }
        if k == 5 { assert(ARM64_MOV@[5] == "str"); reveal_strlit("str"); assert("str"@[0] != "and"@[0]); lemma_words_differ("str", "and"); }
        if k == 6 { assert(ARM64_MOV@[6] == "ldp"); reveal_strlit("ldp"); assert("ldp"@[0] != "and"@[0]); lemma_words_differ("ldp", "and"); }
        if k == 7 { assert(ARM64_MOV@[7] == "stp"); reveal_strlit("stp"); assert("stp"@[0] != "and"@[0]); lemma_words_differ("stp", "and"); }
        if k == 8 { assert(ARM64_MOV@[8] == "ldur"); reveal_strlit("ldur"); assert("ldur"@.len() != "and"@.len()); lemma_words_differ("ldur", "and"); }
        if k == 9 { assert(ARM64_MOV@[9] == "stur"); reveal_strlit("stur"); assert("stur"@.len() != "and"@.len()); lemma_words_differ("stur", "and"); }
        if k == 10 { assert(ARM64_MOV@[10] == "adr"); reveal_strlit("adr"); assert("adr"@[1] != "and"@[1]); lemma_words_differ("adr", "and"); }
        if k == 11 { assert(ARM64_MOV@[11] == "adrp"); reveal_strlit("adrp"); assert("adrp"@.len() != "and"@.len()); lemma_words_differ("adrp", "and"); }
        if k == 12 { assert(ARM64_MOV@[12] == "ldrb"); reveal_strlit("ldrb"); assert("ldrb"@.len() != "and"@.len()); lemma_words_differ("ldrb", "and"); }
        if k == 13 { assert(ARM64_MOV@[13] == "strb"); reveal_strlit("strb"); assert("strb"@.len() != "and"@.len()); lemma_words_differ("strb", "and"); }
        if k == 14 { assert(ARM64_MOV@[14] == "ldrh"); reveal_strlit("ldrh"); assert("ldrh"@.len() != "and"@.len()); lemma_words_differ("ldrh", "and"); }
        if k == 15 { assert(ARM64_MOV@[15] == "strh"); reveal_strlit("strh"); assert("strh"@.len() != "and"@.len()); lemma_words_differ("strh", "and"); }
    }
    assert forall|k: int| 0 <= k < 9 implies #[trigger] ARM64_ARITHMETIC@[k].spec_bytes() != "and".spec_bytes() by {
        if k == 0 { assert(ARM64_ARITHMETIC@[0] == "add"); reveal_strlit("add"); assert("add"@[1] != "and"@[1]); lemma_words_differ("add", "and"); }
        if k == 1 { assert(ARM64_ARITHMETIC@[1] == "sub"); reveal_strlit("sub"); assert("sub"@[0] != "and"@[0]); lemma_words_differ("sub", "and"); }
        if k == 2 { assert(ARM64_ARITHMETIC@[2] == "mul"); reveal_strlit("mul"); assert("mul"@[0] != "and"@[0]); lemma_words_differ("mul", "and"); }
        if k == 3 { assert(ARM64_ARITHMETIC@[3] == "madd"); reveal_strlit("madd"); assert("madd"@.len() != "and"@.len()); lemma_words_differ("madd", "and"); }
        if k == 4 { assert(ARM64_ARITHMETIC@[4] == "msub"); reveal_strlit("msub"); assert("msub"@.len() != "and"@.len()); lemma_words_differ("msub", "and"); }
        if k == 5 { assert(ARM64_ARITHMETIC@[5] == "sdiv"); reveal_strlit("sdiv"); assert("sdiv"@.len() != "and"@.len()); lemma_words_differ("sdiv", "and"); }
        if k == 6 { assert(ARM64_ARITHMETIC@[6] == "udiv"); reveal_strlit("udiv"); assert("udiv"@.len() != "and"@.len()); lemma_words_differ("udiv", "and"); }
        if k == 7 { assert(ARM64_ARITHMETIC@[7] == "adc"); reveal_strlit("adc"); assert("adc"@[1] != "and"@[1]); lemma_words_differ("adc", "and"); }
        if k == 8 { assert(ARM64_ARITHMETIC@[8] == "sbc"); reveal_strlit("sbc"); assert("sbc"@[0] != "and"@[0]); lemma_words_differ("sbc", "and"); }
    }
}

proof fn lemma_arm64_word_orr()
    ensures
        crate::instruction::spec_categorize_arm64("orr".spec_bytes()) == Category::Logic,
{
    reveal_strlit("orr");
    lemma_not_conditional("orr");
    assert(ARM64_LOGIC@[1] == "orr");
    assert forall|k: int| 0 <= k < 16 implies #[trigger] ARM64_MOV@[k].spec_bytes() != "orr".spec_bytes() by {
        if k == 0 { assert(ARM64_MOV@[0] == "mov"); reveal_strlit("mov"); assert("mov"@[0] != "orr"@[0]); lemma_words_differ("mov", "orr"); }
        if k == 1 { assert(ARM64_MOV@[1] == "movz"); reveal_strlit("movz"); assert("movz"@.len() != "orr"@.len()); lemma_words_differ("movz", "orr"); }
        if k == 2 { assert(ARM64_MOV@[2] == "movn"); reveal_strlit("movn"); assert("movn"@.len() != "orr"@.len()); lemma_words_differ("movn", "orr"); }
        if k == 3 { assert(ARM64_MOV@[3] == "movk"); reveal_strlit("movk"); assert("movk"@.len() != "orr"@.len()); lemma_words_differ("movk", "orr"); }
        if k == 4 { assert(ARM64_MOV@[4] == "ldr"); reveal_strlit("ldr"); assert("ldr"@[0] != "orr"@[0]); lemma_words_differ("ldr", "orr"); }
        if k == 5 { assert(ARM64_MOV@[5] == "str"); reveal_strlit("str"); assert("str"@[0] != "orr"@[0]); lemma_words_differ("str", "orr"); }
        if k == 6 { assert(ARM64_MOV@[6] == "ldp"); reveal_strlit("ldp"); assert("ldp"@[0] != "orr"@[0]); lemma_words_differ("ldp", "orr"); }
        if k == 7 { assert(ARM64_MOV@[7] == "stp"); reveal_strlit("stp"); assert("stp"@[0] != "orr"@[0]); lemma_words_differ("stp", "orr"); }
        if k == 8 { assert(ARM64_MOV@[8] == "ldur"); reveal_strlit("ldur"); assert("ldur"@.len() != "orr"@.len()); lemma_words_differ("ldur", "orr"); }
        if k == 9 { assert(ARM64_MOV@[9] == "stur"); reveal_strlit("stur"); assert("stur"@.len() != "orr"@.len()); lemma_words_differ("stur", "orr"); }
        if k == 10 { assert(ARM64_MOV@[10] == "adr"); reveal_strlit("adr"); assert("adr"@[0] != "orr"@[0]); lemma_words_differ("adr", "orr"); }
        if k == 11 { assert(ARM64_MOV@[11] == "adrp"); reveal_strlit("adrp"); assert("adrp"@.len() != "orr"@.len()); lemma_words_differ("adrp", "orr"); }
        if k == 12 { assert(ARM64_MOV@[12] == "ldrb"); reveal_strlit("ldrb"); assert("ldrb"@.len() != "orr"@.len()); lemma_words_differ("ldrb", "orr"); }
        if k == 13 { assert(ARM64_MOV@[13] == "strb"); reveal_strlit("strb"); assert("strb"@.len() != "orr"@.len()); lemma_words_differ("strb", "orr"); }
        if k == 14 { assert(ARM64_MOV@[14] == "ldrh"); reveal_strlit("ldrh"); assert("ldrh"@.len() != "orr"@.len()); lemma_words_differ("ldrh", "orr"); }
        if k == 15 { assert(ARM64_MOV@[15] == "strh"); reveal_strlit("strh"); assert("strh"@.len() != "orr"@.len()); lemma_words_differ("strh", "orr"); }
    }
    assert forall|k: int| 0 <= k < 9 implies #[trigger] ARM64_ARITHMETIC@[k].spec_bytes() != "orr".spec_bytes() by {
        if k == 0 { assert(ARM64_ARITHMETIC@[0] == "add"); reveal_strlit("add"); assert("add"@[0] != "orr"@[0]); lemma_words_differ("add", "orr"); }
        if k == 1 { assert(ARM64_ARITHMETIC@[1] == "sub"); reveal_strlit("sub"); assert("sub"@[0] != "orr"@[0]); lemma_words_differ("sub", "orr"); }
        if k == 2 { assert(ARM64_ARITHMETIC@[2] == "mul"); reveal_strlit("mul"); assert("mul"@[0] != "orr"@[0]); lemma_words_differ("mul", "orr"); }
        if k == 3 { assert(ARM64_ARITHMETIC@[3] == "madd"); reveal_strlit("madd"); assert("madd"@.len() != "orr"@.len()); lemma_words_differ("madd", "orr"); }
        if k == 4 { assert(ARM64_ARITHMETIC@[4] == "msub"); reveal_strlit("msub"); assert("msub"@.len() != "orr"@.len()); lemma_words_differ("msub", "orr"); }
        if k == 5 { assert(ARM64_ARITHMETIC@[5] == "sdiv"); reveal_strlit("sdiv"); assert("sdiv"@.len() != "orr"@.len()); lemma_words_differ("sdiv", "orr"); }
        if k == 6 { assert(ARM64_ARITHMETIC@[6] == "udiv"); reveal_strlit("udiv"); assert("udiv"@.len() != "orr"@.len()); lemma_words_differ("udiv", "orr"); }
        if k == 7 { assert(ARM64_ARITHMETIC@[7] == "adc"); reveal_strlit("adc"); assert("adc"@[0] != "orr"@[0]); lemma_words_differ("adc", "orr"); }
        if k == 8 { assert(ARM64_ARITHMETIC@[8] == "sbc"); reveal_strlit("sbc"); assert("sbc"@[0] != "orr"@[0]); lemma_words_differ("sbc", "orr"); }
    }
}

proof fn lemma_arm64_word_eor()
    ensures
        crate::instruction::spec_categorize_arm64("eor".spec_bytes()) == Category::Logic,
{
    reveal_strlit("eor");
    lemma_not_conditional("eor");
    assert(ARM64_LOGIC@[2] == "eor");
    assert forall|k: int| 0 <= k < 16 implies #[trigger] ARM64_MOV@[k].spec_bytes() != "eor".spec_bytes() by {
        if k == 0 { assert(ARM64_MOV@[0] == "mov"); reveal_strlit("mov"); assert("mov"@[0] != "eor"@[0]); lemma_words_differ("mov", "eor"); }
        if k == 1 { assert(ARM64_MOV@[1] == "movz"); reveal_strlit("movz"); assert("movz"@.len() != "eor"@.len()); lemma_words_differ("movz", "eor"); }
        if k == 2 { assert(ARM64_MOV@[2] == "movn"); reveal_strlit("movn"); assert("movn"@.len() != "eor"@.len()); lemma_words_differ("movn", "eor"); }
        if k == 3 { assert(ARM64_MOV@[3] == "movk"); reveal_strlit("movk"); assert("movk"@.len() != "eor"@.len()); lemma_words_differ("movk", "eor"); }
        if k == 4 { assert(ARM64_MOV@[4] == "ldr"); reveal_strlit("ldr"); assert("ldr"@[0] != "eor"@[0]); lemma_words_differ("ldr", "eor"); }
        if k == 5 { assert(ARM64_MOV@[5] == "str"); reveal_strlit("str"); assert("str"@[0] != "eor"@[0]); lemma_words_differ("str", "eor"); }
        if k == 6 { assert(ARM64_MOV@[6] == "ldp"); reveal_strlit("ldp"); assert("ldp"@[0] != "eor"@[0]); lemma_words_differ("ldp", "eor"); }
        if k == 7 { assert(ARM64_MOV@[7] == "stp"); reveal_strlit("stp"); assert("stp"@[0] != "eor"@[0]); lemma_words_differ("stp", "eor"); }
        if k == 8 { assert(ARM64_MOV@[8] == "ldur"); reveal_strlit("ldur"); assert("ldur"@.len() != "eor"@.len()); lemma_words_differ("ldur", "eor"); }
        if k == 9 { assert(ARM64_MOV@[9] == "stur"); reveal_strlit("stur"); assert("stur"@.len() != "eor"@.len()); lemma_words_differ("stur", "eor"); }
        if k == 10 { assert(ARM64_MOV@[10] == "adr"); reveal_strlit("adr"); assert("adr"@[0] != "eor"@[0]); lemma_words_differ("adr", "eor"); }
        if k == 11 { assert(ARM64_MOV@[11] == "adrp"); reveal_strlit("adrp"); assert("adrp"@.len() != "eor"@.len()); lemma_words_differ("adrp", "eor"); }
        if k == 12 { assert(ARM64_MOV@[12] == "ldrb"); reveal_strlit("ldrb"); assert("ldrb"@.len() != "eor"@.len()); lemma_words_differ("ldrb", "eor"); }
        if k == 13 { assert(ARM64_MOV@[13] == "strb"); reveal_strlit("strb"); assert("strb"@.len() != "eor"@.len()); lemma_words_differ("strb", "eor"); }
        if k == 14 { assert(ARM64_MOV@[14] == "ldrh"); reveal_strlit("ldrh"); assert("ldrh"@.len() != "eor"@.len()); lemma_words_differ("ldrh", "eor"); }
        if k == 15 { assert(ARM64_MOV@[15] == "strh"); reveal_strlit("strh"); assert("strh"@.len() != "eor"@.len()); lemma_words_differ("strh", "eor"); }
    }
    assert forall|k: int| 0 <= k < 9 implies #[trigger] ARM64_ARITHMETIC@[k].spec_bytes() != "eor".spec_bytes() by {
        if k == 0 { assert(ARM64_ARITHMETIC@[0] == "add"); reveal_strlit("add"); assert("add"@[0] != "eor"@[0]); lemma_words_differ("add", "eor"); }
        if k == 1 { assert(ARM64_ARITHMETIC@[1] == "sub"); reveal_strlit("sub"); assert("sub"@[0] != "eor"@[0]); lemma_words_differ("sub", "eor"); }
        if k == 2 { assert(ARM64_ARITHMETIC@[2] == "mul"); reveal_strlit("mul"); assert("mul"@[0] != "eor"@[0]); lemma_words_differ("mul", "eor"); }
        if k == 3 { assert(ARM64_ARITHMETIC@[3] == "madd"); reveal_strlit("madd"); assert("madd"@.len() != "eor"@.len()); lemma_words_differ("madd", "eor"); }
        if k == 4 { assert(ARM64_ARITHMETIC@[4] == "msub"); reveal_strlit("msub"); assert("msub"@.len() != "eor"@.len()); lemma_words_differ("msub", "eor"); }
        if k == 5 { assert(ARM64_ARITHMETIC@[5] == "sdiv"); reveal_strlit("sdiv"); assert("sdiv"@.len() != "eor"@.len()); lemma_words_differ("sdiv", "eor"); }
        if k == 6 { assert(ARM64_ARITHMETIC@[6] == "udiv"); reveal_strlit("udiv"); assert("udiv"@.len() != "eor"@.len()); lemma_words_differ("udiv", "eor"); }
        if k == 7 { assert(ARM64_ARITHMETIC@[7] == "adc"); reveal_strlit("adc"); assert("adc"@[0] != "eor"@[0]); lemma_words_differ("adc", "eor"); }
        if k == 8 { assert(ARM64_ARITHMETIC@[8] == "sbc"); reveal_strlit("sbc"); assert("sbc"@[0] != "eor"@[0]); lemma_words_differ("sbc", "eor"); }
    }
}

proof fn lemma_arm64_word_mvn()
    ensures
        crate::instruction::spec_categorize_arm64("mvn".spec_bytes()) == Category::Logic,
{
    reveal_strlit("mvn");
    lemma_not_conditional("mvn");
    assert(ARM64_LOGIC@[3] == "mvn");
    assert forall|k: int| 0 <= k < 16 implies #[trigger] ARM64_MOV@[k].spec_bytes() != "mvn".spec_bytes() by {
        if k == 0 { assert(ARM64_MOV@[0] == "mov"); reveal_strlit("mov"); assert("mov"@[1] != "mvn"@[1]); lemma_words_differ("mov", "mvn"); }
        if k == 1 { assert(ARM64_MOV@[1] == "movz"); reveal_strlit("movz"); assert("movz"@.len() != "mvn"@.len()); lemma_words_differ("movz", "mvn"); }
        if k == 2 { assert(ARM64_MOV@[2] == "movn"); reveal_strlit("movn"); assert("movn"@.len() != "mvn"@.len()); lemma_words_differ("movn", "mvn"); }
        if k == 3 { assert(ARM64_MOV@[3] == "movk"); reveal_strlit("movk"); assert("movk"@.len() != "mvn"@.len()); lemma_words_differ("movk", "mvn"); }
        if k == 4 { assert(ARM64_MOV@[4] == "ldr"); reveal_strlit("ldr"); assert("ldr"@[0] != "mvn"@[0]); lemma_words_differ("ldr", "mvn"); }
        if k == 5 { assert(ARM64_MOV@[5] == "str"); reveal_strlit("str"); assert("str"@[0] != "mvn"@[0]); lemma_words_differ("str", "mvn"); }
        if k == 6 { assert(ARM64_MOV@[6] == "ldp"); reveal_strlit("ldp"); assert("ldp"@[0] != "mvn"@[0]); lemma_words_differ("ldp", "mvn"); }
        if k == 7 { assert(ARM64_MOV@[7] == "stp"); reveal_strlit("stp"); assert("stp"@[0] != "mvn"@[0]); lemma_words_differ("stp", "mvn"); }
        if k == 8 { assert(ARM64_MOV@[8] == "ldur"); reveal_strlit("ldur"); assert("ldur"@.len() != "mvn"@.len()); lemma_words_differ("ldur", "mvn"); }
        if k == 9 { assert(ARM64_MOV@[9] == "stur"); reveal_strlit("stur"); assert("stur"@.len() != "mvn"@.len()); lemma_words_differ("stur", "mvn"); }
        if k == 10 { assert(ARM64_MOV@[10] == "adr"); reveal_strlit("adr"); assert("adr"@[0] != "mvn"@[0]); lemma_words_differ("adr", "mvn"); }
        if k == 11 { assert(ARM64_MOV@[11] == "adrp"); reveal_strlit("adrp"); assert("adrp"@.len() != "mvn"@.len()); lemma_words_differ("adrp", "mvn"); }
        if k == 12 { assert(ARM64_MOV@[12] == "ldrb"); reveal_strlit("ldrb"); assert("ldrb"@.len() != "mvn"@.len()); lemma_words_differ("ldrb", "mvn"); }
        if k == 13 { assert(ARM64_MOV@[13] == "strb"); reveal_strlit("strb"); assert("strb"@.len() != "mvn"@.len()); lemma_words_differ("strb", "mvn"); }
        if k == 14 { assert(ARM64_MOV@[14] == "ldrh"); reveal_strlit("ldrh"); assert("ldrh"@.len() != "mvn"@.len()); lemma_words_differ("ldrh", "mvn"); }
        if k == 15 { assert(ARM64_MOV@[15] == "strh"); reveal_strlit("strh"); assert("strh"@.len() != "mvn"@.len()); lemma_words_differ("strh", "mvn"); }
    }
    assert forall|k: int| 0 <= k < 9 implies #[trigger] ARM64_ARITHMETIC@[k].spec_bytes() != "mvn".spec_bytes() by {
        if k == 0 { assert(ARM64_ARITHMETIC@[0] == "add"); reveal_strlit("add"); assert("add"@[0] != "mvn"@[0]); lemma_words_differ("add", "mvn"); }
        if k == 1 { assert(ARM64_ARITHMETIC@[1] == "sub"); reveal_strlit("sub"); assert("sub"@[0] != "mvn"@[0]); lemma_words_differ("sub", "mvn"); }
        if k == 2 { assert(ARM64_ARITHMETIC@[2] == "mul"); reveal_strlit("mul"); assert("mul"@[1] != "mvn"@[1]); lemma_words_differ("mul", "mvn"); }
        if k == 3 { assert(ARM64_ARITHMETIC@[3] == "madd"); reveal_strlit("madd"); assert("madd"@.len() != "mvn"@.len()); lemma_words_differ("madd", "mvn"); }
        if k == 4 { assert(ARM64_ARITHMETIC@[4] == "msub"); reveal_strlit("msub"); assert("msub"@.len() != "mvn"@.len()); lemma_words_differ("msub", "mvn"); }
        if k == 5 { assert(ARM64_ARITHMETIC@[5] == "sdiv"); reveal_strlit("sdiv"); assert("sdiv"@.len() != "mvn"@.len()); lemma_words_differ("sdiv", "mvn"); }
        if k == 6 { assert(ARM64_ARITHMETIC@[6] == "udiv"); reveal_strlit("udiv"); assert("udiv"@.len() != "mvn"@.len()); lemma_words_differ("udiv", "mvn"); }
        if k == 7 { assert(ARM64_ARITHMETIC@[7] == "adc"); reveal_strlit("adc"); assert("adc"@[0] != "mvn"@[0]); lemma_words_differ("adc", "mvn"); }
        if k == 8 { assert(ARM64_ARITHMETIC@[8] == "sbc"); reveal_strlit("sbc"); assert("sbc"@[0] != "mvn"@[0]); lemma_words_differ("sbc", "mvn"); }
    }
}

proof fn lemma_arm64_word_bic()
    ensures
        crate::instruction::spec_categorize_arm64("bic".spec_bytes()) == Category::Logic,
{
    reveal_strlit("bic");
    lemma_not_conditional("bic");
    assert(ARM64_LOGIC@[4] == "bic");
    assert forall|k: int| 0 <= k < 16 implies #[trigger] ARM64_MOV@[k].spec_bytes() != "bic".spec_bytes() by {
        if k == 0 { assert(ARM64_MOV@[0] == "mov"); reveal_strlit("mov"); assert("mov"@[0] != "bic"@[0]); lemma_words_differ("mov", "bic"); }
        if k == 1 { assert(ARM64_MOV@[1] == "movz"); reveal_strlit("movz"); assert("movz"@.len() != "bic"@.len()); lemma_words_differ("movz", "bic"); }
        if k == 2 { assert(ARM64_MOV@[2] == "movn"); reveal_strlit("movn"); assert("movn"@.len() != "bic"@.len()); lemma_words_differ("movn", "bic"); }
        if k == 3 { assert(ARM64_MOV@[3] == "movk"); reveal_strlit("movk"); assert("movk"@.len() != "bic"@.len()); lemma_words_differ("movk", "bic"); }
        if k == 4 { assert(ARM64_MOV@[4] == "ldr"); reveal_strlit("ldr"); assert("ldr"@[0] != "bic"@[0]); lemma_words_differ("ldr", "bic"); }
        if k == 5 { assert(ARM64_MOV@[5] == "str"); reveal_strlit("str"); assert("str"@[0] != "bic"@[0]); lemma_words_differ("str", "bic"); }
        if k == 6 { assert(ARM64_MOV@[6] == "ldp"); reveal_strlit("ldp"); assert("ldp"@[0] != "bic"@[0]); lemma_words_differ("ldp", "bic"); }
        if k == 7 { assert(ARM64_MOV@[7] == "stp"); reveal_strlit("stp"); assert("stp"@[0] != "bic"@[0]); lemma_words_differ("stp", "bic"); }
        if k == 8 { assert(ARM64_MOV@[8] == "ldur"); reveal_strlit("ldur"); assert("ldur"@.len() != "bic"@.len()); lemma_words_differ("ldur", "bic"); }
        if k == 9 { assert(ARM64_MOV@[9] == "stur"); reveal_strlit("stur"); assert("stur"@.len() != "bic"@.len()); lemma_words_differ("stur", "bic"); }
        if k == 10 { assert(ARM64_MOV@[10] == "adr"); reveal_strlit("adr"); assert("adr"@[0] != "bic"@[0]); lemma_words_differ("adr", "bic"); }
        if k == 11 { assert(ARM64_MOV@[11] == "adrp"); reveal_strlit("adrp"); assert("adrp"@.len() != "bic"@.len()); lemma_words_differ("adrp", "bic"); }
        if k == 12 { assert(ARM64_MOV@[12] == "ldrb"); reveal_strlit("ldrb"); assert("ldrb"@.len() != "bic"@.len()); lemma_words_differ("ldrb", "bic"); }
        if k == 13 { assert(ARM64_MOV@[13] == "strb"); reveal_strlit("strb"); assert("strb"@.len() != "bic"@.len()); lemma_words_differ("strb", "bic"); }
        if k == 14 { assert(ARM64_MOV@[14] == "ldrh"); reveal_strlit("ldrh"); assert("ldrh"@.len() != "bic"@.len()); lemma_words_differ("ldrh", "bic"); }
        if k == 15 { assert(ARM64_MOV@[15] == "strh"); reveal_strlit("strh"); assert("strh"@.len() != "bic"@.len()); lemma_words_differ("strh", "bic"); }
    }
    assert forall|k: int| 0 <= k < 9 implies #[trigger] ARM64_ARITHMETIC@[k].spec_bytes() != "bic".spec_bytes() by {
        if k == 0 { assert(ARM64_ARITHMETIC@[0] == "add"); reveal_strlit("add"); assert("add"@[0] != "bic"@[0]); lemma_words_differ("add", "bic"); }
        if k == 1 { assert(ARM64_ARITHMETIC@[1] == "sub"); reveal_strlit("sub"); assert("sub"@[0] != "bic"@[0]); lemma_words_differ("sub", "bic"); }
        if k == 2 { assert(ARM64_ARITHMETIC@[2] == "mul"); reveal_strlit("mul"); assert("mul"@[0] != "bic"@[0]); lemma_words_differ("mul", "bic"); }
        if k == 3 { assert(ARM64_ARITHMETIC@[3] == "madd"); reveal_strlit("madd"); assert("madd"@.len() != "bic"@.len()); lemma_words_differ("madd", "bic"); }
        if k == 4 { assert(ARM64_ARITHMETIC@[4] == "msub"); reveal_strlit("msub"); assert("msub"@.len() != "bic"@.len()); lemma_words_differ("msub", "bic"); }
        if k == 5 { assert(ARM64_ARITHMETIC@[5] == "sdiv"); reveal_strlit("sdiv"); assert("sdiv"@.len() != "bic"@.len()); lemma_words_differ("sdiv", "bic"); }
        if k == 6 { assert(ARM64_ARITHMETIC@[6] == "udiv"); reveal_strlit("udiv"); assert("udiv"@.len() != "bic"@.len()); lemma_words_differ("udiv", "bic"); }
        if k == 7 { assert(ARM64_ARITHMETIC@[7] == "adc"); reveal_strlit("adc"); assert("adc"@[0] != "bic"@[0]); lemma_words_differ("adc", "bic"); }
        if k == 8 { assert(ARM64_ARITHMETIC@[8] == "sbc"); reveal_strlit("sbc"); assert("sbc"@[0] != "bic"@[0]); lemma_words_differ("sbc", "bic"); }
    }
}

proof fn lemma_arm64_word_lsl()
    ensures
        crate::instruction::spec_categorize_arm64("lsl".spec_bytes()) == Category::Logic,
{
    reveal_strlit("lsl");
    lemma_not_conditional("lsl");
    assert(ARM64_LOGIC@[5] == "lsl");
    assert forall|k: int| 0 <= k < 16 implies #[trigger] ARM64_MOV@[k].spec_bytes() != "lsl".spec_bytes() by {
        if k == 0 { assert(ARM64_MOV@[0] == "mov"); reveal_strlit("mov"); assert("mov"@[0] != "lsl"@[0]); lemma_words_differ("mov", "lsl"); }
        if k == 1 { assert(ARM64_MOV@[1] == "movz"); reveal_strlit("movz"); assert("movz"@.len() != "lsl"@.len()); lemma_words_differ("movz", "lsl"); }
        if k == 2 { assert(ARM64_MOV@[2] == "movn"); reveal_strlit("movn"); assert("movn"@.len() != "lsl"@.len()); lemma_words_differ("movn", "lsl"); }
        if k == 3 { assert(ARM64_MOV@[3] == "movk"); reveal_strlit("movk"); assert("movk"@.len() != "lsl"@.len()); lemma_words_differ("movk", "lsl"); }
        if k == 4 { assert(ARM64_MOV@[4] == "ldr"); reveal_strlit("ldr"); assert("ldr"@[1] != "lsl"@[1]); lemma_words_differ("ldr", "lsl"); }
        if k == 5 { assert(ARM64_MOV@[5] == "str"); reveal_strlit("str"); assert("str"@[0] != "lsl"@[0]); lemma_words_differ("str", "lsl"); }
        if k == 6 { assert(ARM64_MOV@[6] == "ldp"); reveal_strlit("ldp"); assert("ldp"@[1] != "lsl"@[1]); lemma_words_differ("ldp", "lsl"); }
        if k == 7 { assert(ARM64_MOV@[7] == "stp"); reveal_strlit("stp"); assert("stp"@[0] != "lsl"@[0]); lemma_words_differ("stp", "lsl"); }
        if k == 8 { assert(ARM64_MOV@[8] == "ldur"); reveal_strlit("ldur"); assert("ldur"@.len() != "lsl"@.len()); lemma_words_differ("ldur", "lsl"); }
        if k == 9 { assert(ARM64_MOV@[9] == "stur"); reveal_strlit("stur"); assert("stur"@.len() != "lsl"@.len()); lemma_words_differ("stur", "lsl"); }
        if k == 10 { assert(ARM64_MOV@[10] == "adr"); reveal_strlit("adr"); assert("adr"@[0] != "lsl"@[0]); lemma_words_differ("adr", "lsl"); }
        if k == 11 { assert(ARM64_MOV@[11] == "adrp"); reveal_strlit("adrp"); assert("adrp"@.len() != "lsl"@.len()); lemma_words_differ("adrp", "lsl"); }
        if k == 12 { assert(ARM64_MOV@[12] == "ldrb"); reveal_strlit("ldrb"); assert("ldrb"@.len() != "lsl"@.len()); lemma_words_differ("ldrb", "lsl"); }
        if k == 13 { assert(ARM64_MOV@[13] == "strb"); reveal_strlit("strb"); assert("strb"@.len() != "lsl"@.len()); lemma_words_differ("strb", "lsl"); }
        if k == 14 { assert(ARM64_MOV@[14] == "ldrh"); reveal_strlit("ldrh"); assert("ldrh"@.len() != "lsl"@.len()); lemma_words_differ("ldrh", "lsl"); }
        if k == 15 { assert(ARM64_MOV@[15] == "strh"); reveal_strlit("strh"); assert("strh"@.len() != "lsl"@.len()); lemma_words_differ("strh", "lsl"); }
    }
    assert forall|k: int| 0 <= k < 9 implies #[trigger] ARM64_ARITHMETIC@[k].spec_bytes() != "lsl".spec_bytes() by {
        if k == 0 { assert(ARM64_ARITHMETIC@[0] == "add"); reveal_strlit("add"); assert("add"@[0] != "lsl"@[0]); lemma_words_differ("add", "lsl"); }
        if k == 1 { assert(ARM64_ARITHMETIC@[1] == "sub"); reveal_strlit("sub"); assert("sub"@[0] != "lsl"@[0]); lemma_words_differ("sub", "lsl"); }
        if k == 2 { assert(ARM64_ARITHMETIC@[2] == "mul"); reveal_strlit("mul"); assert("mul"@[0] != "lsl"@[0]); lemma_words_differ("mul", "lsl"); }
        if k == 3 { assert(ARM64_ARITHMETIC@[3] == "madd"); reveal_strlit("madd"); assert("madd"@.len() != "lsl"@.len()); lemma_words_differ("madd", "lsl"); }
        if k == 4 { assert(ARM64_ARITHMETIC@[4] == "msub"); reveal_strlit("msub"); assert("msub"@.len() != "lsl"@.len()); lemma_words_differ("msub", "lsl"); }
        if k == 5 { assert(ARM64_ARITHMETIC@[5] == "sdiv"); reveal_strlit("sdiv"); assert("sdiv"@.len() != "lsl"@.len()); lemma_words_differ("sdiv", "lsl"); }
        if k == 6 { assert(ARM64_ARITHMETIC@[6] == "udiv"); reveal_strlit("udiv"); assert("udiv"@.len() != "lsl"@.len()); lemma_words_differ("udiv", "lsl"); }
        if k == 7 { assert(ARM64_ARITHMETIC@[7] == "adc"); reveal_strlit("adc"); assert("adc"@[0] != "lsl"@[0]); lemma_words_differ("adc", "lsl"); }
        if k == 8 { assert(ARM64_ARITHMETIC@[8] == "sbc"); reveal_strlit("sbc"); assert("sbc"@[0] != "lsl"@[0]); lemma_words_differ("sbc", "lsl"); }
    }
}

proof fn lemma_arm64_word_lsr()
    ensures
        crate::instruction::spec_categorize_arm64("lsr".spec_bytes()) == Category::Logic,
{
    reveal_strlit("lsr");
    lemma_not_conditional("lsr");
    assert(ARM64_LOGIC@[6] == "lsr");
    assert forall|k: int| 0 <= k < 16 implies #[trigger] ARM64_MOV@[k].spec_bytes() != "lsr".spec_bytes() by {
        if k == 0 { assert(ARM64_MOV@[0] == "mov"); reveal_strlit("mov"); assert("mov"@[0] != "lsr"@[0]); lemma_words_differ("mov", "lsr"); }
        if k == 1 { assert(ARM64_MOV@[1] == "movz"); reveal_strlit("movz"); assert("movz"@.len() != "lsr"@.len()); lemma_words_differ("movz", "lsr"); }
        if k == 2 { assert(ARM64_MOV@[2] == "movn"); reveal_strlit("movn"); assert("movn"@.len() != "lsr"@.len()); lemma_words_differ("movn", "lsr"); }
        if k == 3 { assert(ARM64_MOV@[3] == "movk"); reveal_strlit("movk"); assert("movk"@.len() != "lsr"@.len()); lemma_words_differ("movk", "lsr"); }
        if k == 4 { assert(ARM64_MOV@[4] == "ldr"); reveal_strlit("ldr"); assert("ldr"@[1] != "lsr"@[1]); lemma_words_differ("ldr", "lsr"); }
        if k == 5 { assert(ARM64_MOV@[5] == "str"); reveal_strlit("str"); assert("str"@[0] != "lsr"@[0]); lemma_words_differ("str", "lsr"); }
        if k == 6 { assert(ARM64_MOV@[6] == "ldp"); reveal_strlit("ldp"); assert("ldp"@[1] != "lsr"@[1]); lemma_words_differ("ldp", "lsr"); }
        if k == 7 { assert(ARM64_MOV@[7] == "stp"); reveal_strlit("stp"); assert("stp"@[0] != "lsr"@[0]); lemma_words_differ("stp", "lsr"); }
        if k == 8 { assert(ARM64_MOV@[8] == "ldur"); reveal_strlit("ldur"); assert("ldur"@.len() != "lsr"@.len()); lemma_words_differ("ldur", "lsr"); }
        if k == 9 { assert(ARM64_MOV@[9] == "stur"); reveal_strlit("stur"); assert("stur"@.len() != "lsr"@.len()); lemma_words_differ("stur", "lsr"); }
        if k == 10 { assert(ARM64_MOV@[10] == "adr"); reveal_strlit("adr"); assert("adr"@[0] != "lsr"@[0]); lemma_words_differ("adr", "lsr"); }
        if k == 11 { assert(ARM64_MOV@[11] == "adrp"); reveal_strlit("adrp"); assert("adrp"@.len() != "lsr"@.len()); lemma_words_differ("adrp", "lsr"); }
        if k == 12 { assert(ARM64_MOV@[12] == "ldrb"); reveal_strlit("ldrb"); assert("ldrb"@.len() != "lsr"@.len()); lemma_words_differ("ldrb", "lsr"); }
        if k == 13 { assert(ARM64_MOV@[13] == "strb"); reveal_strlit("strb"); assert("strb"@.len() != "lsr"@.len()); lemma_words_differ("strb", "lsr"); }
        if k == 14 { assert(ARM64_MOV@[14] == "ldrh"); reveal_strlit("ldrh"); assert("ldrh"@.len() != "lsr"@.len()); lemma_words_differ("ldrh", "lsr"); }
        if k == 15 { assert(ARM64_MOV@[15] == "strh"); reveal_strlit("strh"); assert("strh"@.len() != "lsr"@.len()); lemma_words_differ("strh", "lsr"); }
    }
    assert forall|k: int| 0 <= k < 9 implies #[trigger] ARM64_ARITHMETIC@[k].spec_bytes() != "lsr".spec_bytes() by {
        if k == 0 { assert(ARM64_ARITHMETIC@[0] == "add"); reveal_strlit("add"); assert("add"@[0] != "lsr"@[0]); lemma_words_differ("add", "lsr"); }
        if k == 1 { assert(ARM64_ARITHMETIC@[1] == "sub"); reveal_strlit("sub"); assert("sub"@[0] != "lsr"@[0]); lemma_words_differ("sub", "lsr"); }
        if k == 2 { assert(ARM64_ARITHMETIC@[2] == "mul"); reveal_strlit("mul"); assert("mul"@[0] != "lsr"@[0]); lemma_words_differ("mul", "lsr"); }
        if k == 3 { assert(ARM64_ARITHMETIC@[3] == "madd"); reveal_strlit("madd"); assert("madd"@.len() != "lsr"@.len()); lemma_words_differ("madd", "lsr"); }
        if k == 4 { assert(ARM64_ARITHMETIC@[4] == "msub"); reveal_strlit("msub"); assert("msub"@.len() != "lsr"@.len()); lemma_words_differ("msub", "lsr"); }
        if k == 5 { assert(ARM64_ARITHMETIC@[5] == "sdiv"); reveal_strlit("sdiv"); assert("sdiv"@.len() != "lsr"@.len()); lemma_words_differ("sdiv", "lsr"); }
        if k == 6 { assert(ARM64_ARITHMETIC@[6] == "udiv"); reveal_strlit("udiv"); assert("udiv"@.len() != "lsr"@.len()); lemma_words_differ("udiv", "lsr"); }
        if k == 7 { assert(ARM64_ARITHMETIC@[7] == "adc"); reveal_strlit("adc"); assert("adc"@[0] != "lsr"@[0]); lemma_words_differ("adc", "lsr"); }
        if k == 8 { assert(ARM64_ARITHMETIC@[8] == "sbc"); reveal_strlit("sbc"); assert("sbc"@[0] != "lsr"@[0]); lemma_words_differ("sbc", "lsr"); }
    }
}

proof fn lemma_arm64_word_asr()
    ensures
        crate::instruction::spec_categorize_arm64("asr".spec_bytes()) == Category::Logic,
{
    reveal_strlit("asr");
    lemma_not_conditional("asr");
    assert(ARM64_LOGIC@[7] == "asr");
    assert forall|k: int| 0 <= k < 16 implies #[trigger] ARM64_MOV@[k].spec_bytes() != "asr".spec_bytes() by {
        if k == 0 { assert(ARM64_MOV@[0] == "mov"); reveal_strlit("mov"); assert("mov"@[0] != "asr"@[0]); lemma_words_differ("mov", "asr"); }
        if k == 1 { assert(ARM64_MOV@[1] == "movz"); reveal_strlit("movz"); assert("movz"@.len() != "asr"@.len()); lemma_words_differ("movz", "asr"); }
        if k == 2 { assert(ARM64_MOV@[2] == "movn"); reveal_strlit("movn"); assert("movn"@.len() != "asr"@.len()); lemma_words_differ("movn", "asr"); }
        if k == 3 { assert(ARM64_MOV@[3] == "movk"); reveal_strlit("movk"); assert("movk"@.len() != "asr"@.len()); lemma_words_differ("movk", "asr"); }
        if k == 4 { assert(ARM64_MOV@[4] == "ldr"); reveal_strlit("ldr"); assert("ldr"@[0] != "asr"@[0]); lemma_words_differ("ldr", "asr"); }
        if k == 5 { assert(ARM64_MOV@[5] == "str"); reveal_strlit("str"); assert("str"@[0] != "asr"@[0]); lemma_words_differ("str", "asr"); }
        if k == 6 { assert(ARM64_MOV@[6] == "ldp"); reveal_strlit("ldp"); assert("ldp"@[0] != "asr"@[0]); lemma_words_differ("ldp", "asr"); }
        if k == 7 { assert(ARM64_MOV@[7] == "stp"); reveal_strlit("stp"); assert("stp"@[0] != "asr"@[0]); lemma_words_differ("stp", "asr"); }
        if k == 8 { assert(ARM64_MOV@[8] == "ldur"); reveal_strlit("ldur"); assert("ldur"@.len() != "asr"@.len()); lemma_words_differ("ldur", "asr"); }
        if k == 9 { assert(ARM64_MOV@[9] == "stur"); reveal_strlit("stur"); assert("stur"@.len() != "asr"@.len()); lemma_words_differ("stur", "asr"); }
        if k == 10 { assert(ARM64_MOV@[10] == "adr"); reveal_strlit("adr"); assert("adr"@[1] != "asr"@[1]); lemma_words_differ("adr", "asr"); }
        if k == 11 { assert(ARM64_MOV@[11] == "adrp"); reveal_strlit("adrp"); assert("adrp"@.len() != "asr"@.len()); lemma_words_differ("adrp", "asr"); }
        if k == 12 { assert(ARM64_MOV@[12] == "ldrb"); reveal_strlit("ldrb"); assert("ldrb"@.len() != "asr"@.len()); lemma_words_differ("ldrb", "asr"); }
        if k == 13 { assert(ARM64_MOV@[13] == "strb"); reveal_strlit("strb"); assert("strb"@.len() != "asr"@.len()); lemma_words_differ("strb", "asr"); }
        if k == 14 { assert(ARM64_MOV@[14] == "ldrh"); reveal_strlit("ldrh"); assert("ldrh"@.len() != "asr"@.len()); lemma_words_differ("ldrh", "asr"); }
        if k == 15 { assert(ARM64_MOV@[15] == "strh"); reveal_strlit("strh"); assert("strh"@.len() != "asr"@.len()); lemma_words_differ("strh", "asr"); }
    }
    assert forall|k: int| 0 <= k < 9 implies #[trigger] ARM64_ARITHMETIC@[k].spec_bytes() != "asr".spec_bytes() by {
        if k == 0 { assert(ARM64_ARITHMETIC@[0] == "add"); reveal_strlit("add"); assert("add"@[1] != "asr"@[1]); lemma_words_differ("add", "asr"); }
        if k == 1 { assert(ARM64_ARITHMETIC@[1] == "sub"); reveal_strlit("sub"); assert("sub"@[0] != "asr"@[0]); lemma_words_differ("sub", "asr"); }
        if k == 2 { assert(ARM64_ARITHMETIC@[2] == "mul"); reveal_strlit("mul"); assert("mul"@[0] != "asr"@[0]); lemma_words_differ("mul", "asr"); }
        if k == 3 { assert(ARM64_ARITHMETIC@[3] == "madd"); reveal_strlit("madd"); assert("madd"@.len() != "asr"@.len()); lemma_words_differ("madd", "asr"); }
        if k == 4 { assert(ARM64_ARITHMETIC@[4] == "msub"); reveal_strlit("msub"); assert("msub"@.len() != "asr"@.len()); lemma_words_differ("msub", "asr"); }
        if k == 5 { assert(ARM64_ARITHMETIC@[5] == "sdiv"); reveal_strlit("sdiv"); assert("sdiv"@.len() != "asr"@.len()); lemma_words_differ("sdiv", "asr"); }
        if k == 6 { assert(ARM64_ARITHMETIC@[6] == "udiv"); reveal_strlit("udiv"); assert("udiv"@.len() != "asr"@.len()); lemma_words_differ("udiv", "asr"); }
        if k == 7 { assert(ARM64_ARITHMETIC@[7] == "adc"); reveal_strlit("adc"); assert("adc"@[1] != "asr"@[1]); lemma_words_differ("adc", "asr"); }
        if k == 8 { assert(ARM64_ARITHMETIC@[8] == "sbc"); reveal_strlit("sbc"); assert("sbc"@[0] != "asr"@[0]); lemma_words_differ("sbc", "asr"); }
    }
}

proof fn lemma_arm64_word_ror()
    ensures
        crate::instruction::spec_categorize_arm64("ror".spec_bytes()) == Category::Logic,
{
    reveal_strlit("ror");
    lemma_not_conditional("ror");
    assert(ARM64_LOGIC@[8] == "ror");
    assert forall|k: int| 0 <= k < 16 implies #[trigger] ARM64_MOV@[k].spec_bytes() != "ror".spec_bytes() by {
        if k == 0 { assert(ARM64_MOV@[0] == "mov"); reveal_strlit("mov"); assert("mov"@[0] != "ror"@[0]); lemma_words_differ("mov", "ror"); }
        if k == 1 { assert(ARM64_MOV@[1] == "movz"); reveal_strlit("movz"); assert("movz"@.len() != "ror"@.len()); lemma_words_differ("movz", "ror"); }
        if k == 2 { assert(ARM64_MOV@[2] == "movn"); reveal_strlit("movn"); assert("movn"@.len() != "ror"@.len()); lemma_words_differ("movn", "ror"); }
        if k == 3 { assert(ARM64_MOV@[3] == "movk"); reveal_strlit("movk"); assert("movk"@.len() != "ror"@.len()); lemma_words_differ("movk", "ror"); }
        if k == 4 { assert(ARM64_MOV@[4] == "ldr"); reveal_strlit("ldr"); assert("ldr"@[0] != "ror"@[0]); lemma_words_differ("ldr", "ror"); }
        if k == 5 { assert(ARM64_MOV@[5] == "str"); reveal_strlit("str"); assert("str"@[0] != "ror"@[0]); lemma_words_differ("str", "ror"); }
        if k == 6 { assert(ARM64_MOV@[6] == "ldp"); reveal_strlit("ldp"); assert("ldp"@[0] != "ror"@[0]); lemma_words_differ("ldp", "ror"); }
        if k == 7 { assert(ARM64_MOV@[7] == "stp"); reveal_strlit("stp"); assert("stp"@[0] != "ror"@[0]); lemma_words_differ("stp", "ror"); }
        if k == 8 { assert(ARM64_MOV@[8] == "ldur"); reveal_strlit("ldur"); assert("ldur"@.len() != "ror"@.len()); lemma_words_differ("ldur", "ror"); }
        if k == 9 { assert(ARM64_MOV@[9] == "stur"); reveal_strlit("stur"); assert("stur"@.len() != "ror"@.len()); lemma_words_differ("stur", "ror"); }
        if k == 10 { assert(ARM64_MOV@[10] == "adr"); reveal_strlit("adr"); assert("adr"@[0] != "ror"@[0]); lemma_words_differ("adr", "ror"); }
        if k == 11 { assert(ARM64_MOV@[11] == "adrp"); reveal_strlit("adrp"); assert("adrp"@.len() != "ror"@.len()); lemma_words_differ("adrp", "ror"); }
        if k == 12 { assert(ARM64_MOV@[12] == "ldrb"); reveal_strlit("ldrb"); assert("ldrb"@.len() != "ror"@.len()); lemma_words_differ("ldrb", "ror"); }
        if k == 13 { assert(ARM64_MOV@[13] == "strb"); reveal_strlit("strb"); assert("strb"@.len() != "ror"@.len()); lemma_words_differ("strb", "ror"); }
        if k == 14 { assert(ARM64_MOV@[14] == "ldrh"); reveal_strlit("ldrh"); assert("ldrh"@.len() != "ror"@.len()); lemma_words_differ("ldrh", "ror"); }
        if k == 15 { assert(ARM64_MOV@[15] == "strh"); reveal_strlit("strh"); assert("strh"@.len() != "ror"@.len()); lemma_words_differ("strh", "ror"); }
    }
    assert forall|k: int| 0 <= k < 9 implies #[trigger] ARM64_ARITHMETIC@[k].spec_bytes() != "ror".spec_bytes() by {
        if k == 0 { assert(ARM64_ARITHMETIC@[0] == "add"); reveal_strlit("add"); assert("add"@[0] != "ror"@[0]); lemma_words_differ("add", "ror"); }
        if k == 1 { assert(ARM64_ARITHMETIC@[1] == "sub"); reveal_strlit("sub"); assert("sub"@[0] != "ror"@[0]); lemma_words_differ("sub", "ror"); }
        if k == 2 { assert(ARM64_ARITHMETIC@[2] == "mul"); reveal_strlit("mul"); assert("mul"@[0] != "ror"@[0]); lemma_words_differ("mul", "ror"); }
        if k == 3 { assert(ARM64_ARITHMETIC@[3] == "madd"); reveal_strlit("madd"); assert("madd"@.len() != "ror"@.len()); lemma_words_differ("madd", "ror"); }
        if k == 4 { assert(ARM64_ARITHMETIC@[4] == "msub"); reveal_strlit("msub"); assert("msub"@.len() != "ror"@.len()); lemma_words_differ("msub", "ror"); }
        if k == 5 { assert(ARM64_ARITHMETIC@[5] == "sdiv"); reveal_strlit("sdiv"); assert("sdiv"@.len() != "ror"@.len()); lemma_words_differ("sdiv", "ror"); }
        if k == 6 { assert(ARM64_ARITHMETIC@[6] == "udiv"); reveal_strlit("udiv"); assert("udiv"@.len() != "ror"@.len()); lemma_words_differ("udiv", "ror"); }
        if k == 7 { assert(ARM64_ARITHMETIC@[7] == "adc"); reveal_strlit("adc"); assert("adc"@[0] != "ror"@[0]); lemma_words_differ("adc", "ror"); }
        if k == 8 { assert(ARM64_ARITHMETIC@[8] == "sbc"); reveal_strlit("sbc"); assert("sbc"@[0] != "ror"@[0]); lemma_words_differ("sbc", "ror"); }
    }
}

proof fn lemma_arm64_logic_words(m: Seq<u8>)
    requires
        m == "and".spec_bytes() || m == "orr".spec_bytes() || m == "eor".spec_bytes() || m == "mvn".spec_bytes() || m == "bic".spec_bytes() || m == "lsl".spec_bytes() || m == "lsr".spec_bytes() || m == "asr".spec_bytes() || m == "ror".spec_bytes(),
    ensures
        crate::instruction::spec_categorize_arm64(m) == Category::Logic,
        crate::instruction::spec_categorize(m, ArchKind::Arm64) == Category::Logic,
        crate::instruction::listing_counts(seq![Some(m)], ArchKind::Arm64) == (1int, 0int, 0int, 1int, 0int, 0int),
{
    if m == "and".spec_bytes() {
        lemma_arm64_word_and();
        reveal_strlit("and");
        lemma_lower_fixed("and");
    }
    if m == "orr".spec_bytes() {
        lemma_arm64_word_orr();
        reveal_strlit("orr");
        lemma_lower_fixed("orr");
    }
    if m == "eor".spec_bytes() {
        lemma_arm64_word_eor();
        reveal_strlit("eor");
        lemma_lower_fixed("eor");
    }
    if m == "mvn".spec_bytes() {
        lemma_arm64_word_mvn();
        reveal_strlit("mvn");
        lemma_lower_fixed("mvn");
    }
    if m == "bic".spec_bytes() {
        lemma_arm64_word_bic();
        reveal_strlit("bic");
        lemma_lower_fixed("bic");
    }
    if m == "lsl".spec_bytes() {
        lemma_arm64_word_lsl();
        reveal_strlit("lsl");
        lemma_lower_fixed("lsl");
    }
    if m == "lsr".spec_bytes() {
        lemma_arm64_word_lsr();
        reveal_strlit("lsr");
        lemma_lower_fixed("lsr");
    }
    if m == "asr".spec_bytes() {
        lemma_arm64_word_asr();
        reveal_strlit("asr");
        lemma_lower_fixed("asr");
    }
    if m == "ror".spec_bytes() {
        lemma_arm64_word_ror();
        reveal_strlit("ror");
        lemma_lower_fixed("ror");
    }
    assert(seq![Some(m)].drop_last() =~= Seq::<Option<Seq<u8>>>::empty());
    assert(seq![Some(m)].last() == Some(m));
    assert(crate::instruction::listing_counts(Seq::<Option<Seq<u8>>>::empty(), ArchKind::Arm64) == (0int, 0int, 0int, 0int, 0int, 0int));
}

proof fn lemma_arm64_word_b()
    ensures
        crate::instruction::spec_categorize_arm64("b".spec_bytes()) == Category::ControlFlow,
{
    reveal_strlit("b");
    lemma_not_conditional("b");
    assert(ARM64_CONTROL@[0] == "b");
    assert forall|k: int| 0 <= k < 16 implies #[trigger] ARM64_MOV@[k].spec_bytes() != "b".spec_bytes() by {
        if k == 0 { assert(ARM64_MOV@[0] == "mov"); reveal_strlit("mov"); assert("mov"@.len() != "b"@.len()); lemma_words_differ("mov", "b"); }
        if k == 1 { assert(ARM64_MOV@[1] == "movz"); reveal_strlit("movz"); assert("movz"@.len() != "b"@.len()); lemma_words_differ("movz", "b"); }
        if k == 2 { assert(ARM64_MOV@[2] == "movn"); reveal_strlit("movn"); assert("movn"@.len() != "b"@.len()); lemma_words_differ("movn", "b"); }
        if k == 3 { assert(ARM64_MOV@[3] == "movk"); reveal_strlit("movk"); assert("movk"@.len() != "b"@.len()); lemma_words_differ("movk", "b"); }
        if k == 4 { assert(ARM64_MOV@[4] == "ldr"); reveal_strlit("ldr"); assert("ldr"@.len() != "b"@.len()); lemma_words_differ("ldr", "b"); }
        if k == 5 { assert(ARM64_MOV@[5] == "str"); reveal_strlit("str"); assert("str"@.len() != "b"@.len()); lemma_words_differ("str", "b"); }
        if k == 6 { assert(ARM64_MOV@[6] == "ldp"); reveal_strlit("ldp"); assert("ldp"@.len() != "b"@.len()); lemma_words_differ("ldp", "b"); }
        if k == 7 { assert(ARM64_MOV@[7] == "stp"); reveal_strlit("stp"); assert("stp"@.len() != "b"@.len()); lemma_words_differ("stp", "b"); }
        if k == 8 { assert(ARM64_MOV@[8] == "ldur"); reveal_strlit("ldur"); assert("ldur"@.len() != "b"@.len()); lemma_words_differ("ldur", "b"); }
        if k == 9 { assert(ARM64_MOV@[9] == "stur"); reveal_strlit("stur"); assert("stur"@.len() != "b"@.len()); lemma_words_differ("stur", "b"); }
        if k == 10 { assert(ARM64_MOV@[10] == "adr"); reveal_strlit("adr"); assert("adr"@.len() != "b"@.len()); lemma_words_differ("adr", "b"); }
        if k == 11 { assert(ARM64_MOV@[11] == "adrp"); reveal_strlit("adrp"); assert("adrp"@.len() != "b"@.len()); lemma_words_differ("adrp", "b"); }
        if k == 12 { assert(ARM64_MOV@[12] == "ldrb"); reveal_strlit("ldrb"); assert("ldrb"@.len() != "b"@.len()); lemma_words_differ("ldrb", "b"); }
        if k == 13 { assert(ARM64_MOV@[13] == "strb"); reveal_strlit("strb"); assert("strb"@.len() != "b"@.len()); lemma_words_differ("strb", "b"); }
        if k == 14 { assert(ARM64_MOV@[14] == "ldrh"); reveal_strlit("ldrh"); assert("ldrh"@.len() != "b"@.len()); lemma_words_differ("ldrh", "b"); }
        if k == 15 { assert(ARM64_MOV@[15] == "strh"); reveal_strlit("strh"); assert("strh"@.len() != "b"@.len()); lemma_words_differ("strh", "b"); }
    }
    assert forall|k: int| 0 <= k < 9 implies #[trigger] ARM64_ARITHMETIC@[k].spec_bytes() != "b".spec_bytes() by {
        if k == 0 { assert(ARM64_ARITHMETIC@[0] == "add"); reveal_strlit("add"); assert("add"@.len() != "b"@.len()); lemma_words_differ("add", "b"); }
        if k == 1 { assert(ARM64_ARITHMETIC@[1] == "sub"); reveal_strlit("sub"); assert("sub"@.len() != "b"@.len()); lemma_words_differ("sub", "b"); }
        if k == 2 { assert(ARM64_ARITHMETIC@[2] == "mul"); reveal_strlit("mul"); assert("mul"@.len() != "b"@.len()); lemma_words_differ("mul", "b"); }
        if k == 3 { assert(ARM64_ARITHMETIC@[3] == "madd"); reveal_strlit("madd"); assert("madd"@.len() != "b"@.len()); lemma_words_differ("madd", "b"); }
        if k == 4 { assert(ARM64_ARITHMETIC@[4] == "msub"); reveal_strlit("msub"); assert("msub"@.len() != "b"@.len()); lemma_words_differ("msub", "b"); }
        if k == 5 { assert(ARM64_ARITHMETIC@[5] == "sdiv"); reveal_strlit("sdiv"); assert("sdiv"@.len() != "b"@.len()); lemma_words_differ("sdiv", "b"); }
        if k == 6 { assert(ARM64_ARITHMETIC@[6] == "udiv"); reveal_strlit("udiv"); assert("udiv"@.len() != "b"@.len()); lemma_words_differ("udiv", "b"); }
        if k == 7 { assert(ARM64_ARITHMETIC@[7] == "adc"); reveal_strlit("adc"); assert("adc"@.len() != "b"@.len()); lemma_words_differ("adc", "b"); }
        if k == 8 { assert(ARM64_ARITHMETIC@[8] == "sbc"); reveal_strlit("sbc"); assert("sbc"@.len() != "b"@.len()); lemma_words_differ("sbc", "b"); }
    }
    assert forall|k: int| 0 <= k < 9 implies #[trigger] ARM64_LOGIC@[k].spec_bytes() != "b".spec_bytes() by {
        if k == 0 { assert(ARM64_LOGIC@[0] == "and"); reveal_strlit("and"); assert("and"@.len() != "b"@.len()); lemma_words_differ("and", "b"); }
        if k == 1 { assert(ARM64_LOGIC@[1] == "orr"); reveal_strlit("orr"); assert("orr"@.len() != "b"@.len()); lemma_words_differ("orr", "b"); }
        if k == 2 { assert(ARM64_LOGIC@[2] == "eor"); reveal_strlit("eor"); assert("eor"@.len() != "b"@.len()); lemma_words_differ("eor", "b"); }
        if k == 3 { assert(ARM64_LOGIC@[3] == "mvn"); reveal_strlit("mvn"); assert("mvn"@.len() != "b"@.len()); lemma_words_differ("mvn", "b"); }
        if k == 4 { assert(ARM64_LOGIC@[4] == "bic"); reveal_strlit("bic"); assert("bic"@.len() != "b"@.len()); lemma_words_differ("bic", "b"); }
        if k == 5 { assert(ARM64_LOGIC@[5] == "lsl"); reveal_strlit("lsl"); assert("lsl"@.len() != "b"@.len()); lemma_words_differ("lsl", "b"); }
        if k == 6 { assert(ARM64_LOGIC@[6] == "lsr"); reveal_strlit("lsr"); assert("lsr"@.len() != "b"@.len()); lemma_words_differ("lsr", "b"); }
        if k == 7 { assert(ARM64_LOGIC@[7] == "asr"); reveal_strlit("asr"); assert("asr"@.len() != "b"@.len()); lemma_words_differ("asr", "b"); }
        if k == 8 { assert(ARM64_LOGIC@[8] == "ror"); reveal_strlit("ror"); assert("ror"@.len() != "b"@.len()); lemma_words_differ("ror", "b"); }
    }
}

proof fn lemma_arm64_word_bl()
    ensures
        crate::instruction::spec_categorize_arm64("bl".spec_bytes()) == Category::ControlFlow,
{
    reveal_strlit("bl");
    lemma_not_conditional("bl");
    assert(ARM64_CONTROL@[1] == "bl");
    assert forall|k: int| 0 <= k < 16 implies #[trigger] ARM64_MOV@[k].spec_bytes() != "bl".spec_bytes() by {
        if k == 0 { assert(ARM64_MOV@[0] == "mov"); reveal_strlit("mov"); assert("mov"@.len() != "bl"@.len()); lemma_words_differ("mov", "bl"); }
        if k == 1 { assert(ARM64_MOV@[1] == "movz"); reveal_strlit("movz"); assert("movz"@.len() != "bl"@.len()); lemma_words_differ("movz", "bl"); }
        if k == 2 { assert(ARM64_MOV@[2] == "movn"); reveal_strlit("movn"); assert("movn"@.len() != "bl"@.len()); lemma_words_differ("movn", "bl"); }
        if k == 3 { assert(ARM64_MOV@[3] == "movk"); reveal_strlit("movk"); assert("movk"@.len() != "bl"@.len()); lemma_words_differ("movk", "bl"); }
        if k == 4 { assert(ARM64_MOV@[4] == "ldr"); reveal_strlit("ldr"); assert("ldr"@.len() != "bl"@.len()); lemma_words_differ("ldr", "bl"); }
        if k == 5 { assert(ARM64_MOV@[5] == "str"); reveal_strlit("str"); assert("str"@.len() != "bl"@.len()); lemma_words_differ("str", "bl"); }
        if k == 6 { assert(ARM64_MOV@[6] == "ldp"); reveal_strlit("ldp"); assert("ldp"@.len() != "bl"@.len()); lemma_words_differ("ldp", "bl"); }
        if k == 7 { assert(ARM64_MOV@[7] == "stp"); reveal_strlit("stp"); assert("stp"@.len() != "bl"@.len()); lemma_words_differ("stp", "bl"); }
        if k == 8 { assert(ARM64_MOV@[8] == "ldur"); reveal_strlit("ldur"); assert("ldur"@.len() != "bl"@.len()); lemma_words_differ("ldur", "bl"); }
        if k == 9 { assert(ARM64_MOV@[9] == "stur"); reveal_strlit("stur"); assert("stur"@.len() != "bl"@.len()); lemma_words_differ("stur", "bl"); }
        if k == 10 { assert(ARM64_MOV@[10] == "adr"); reveal_strlit("adr"); assert("adr"@.len() != "bl"@.len()); lemma_words_differ("adr", "bl"); }
        if k == 11 { assert(ARM64_MOV@[11] == "adrp"); reveal_strlit("adrp"); assert("adrp"@.len() != "bl"@.len()); lemma_words_differ("adrp", "bl"); }
        if k == 12 { assert(ARM64_MOV@[12] == "ldrb"); reveal_strlit("ldrb"); assert("ldrb"@.len() != "bl"@.len()); lemma_words_differ("ldrb", "bl"); }
        if k == 13 { assert(ARM64_MOV@[13] == "strb"); reveal_strlit("strb"); assert("strb"@.len() != "bl"@.len()); lemma_words_differ("strb", "bl"); }
        if k == 14 { assert(ARM64_MOV@[14] == "ldrh"); reveal_strlit("ldrh"); assert("ldrh"@.len() != "bl"@.len()); lemma_words_differ("ldrh", "bl"); }
        if k == 15 { assert(ARM64_MOV@[15] == "strh"); reveal_strlit("strh"); assert("strh"@.len() != "bl"@.len()); lemma_words_differ("strh", "bl"); }
    }
    assert forall|k: int| 0 <= k < 9 implies #[trigger] ARM64_ARITHMETIC@[k].spec_bytes() != "bl".spec_bytes() by {
        if k == 0 { assert(ARM64_ARITHMETIC@[0] == "add"); reveal_strlit("add"); assert("add"@.len() != "bl"@.len()); lemma_words_differ("add", "bl"); }
        if k == 1 { assert(ARM64_ARITHMETIC@[1] == "sub"); reveal_strlit("sub"); assert("sub"@.len() != "bl"@.len()); lemma_words_differ("sub", "bl"); }
        if k == 2 { assert(ARM64_ARITHMETIC@[2] == "mul"); reveal_strlit("mul"); assert("mul"@.len() != "bl"@.len()); lemma_words_differ("mul", "bl"); }
        if k == 3 { assert(ARM64_ARITHMETIC@[3] == "madd"); reveal_strlit("madd"); assert("madd"@.len() != "bl"@.len()); lemma_words_differ("madd", "bl"); }
        if k == 4 { assert(ARM64_ARITHMETIC@[4] == "msub"); reveal_strlit("msub"); assert("msub"@.len() != "bl"@.len()); lemma_words_differ("msub", "bl"); }
        if k == 5 { assert(ARM64_ARITHMETIC@[5] == "sdiv"); reveal_strlit("sdiv"); assert("sdiv"@.len() != "bl"@.len()); lemma_words_differ("sdiv", "bl"); }
        if k == 6 { assert(ARM64_ARITHMETIC@[6] == "udiv"); reveal_strlit("udiv"); assert("udiv"@.len() != "bl"@.len()); lemma_words_differ("udiv", "bl"); }
        if k == 7 { assert(ARM64_ARITHMETIC@[7] == "adc"); reveal_strlit("adc"); assert("adc"@.len() != "bl"@.len()); lemma_words_differ("adc", "bl"); }
        if k == 8 { assert(ARM64_ARITHMETIC@[8] == "sbc"); reveal_strlit("sbc"); assert("sbc"@.len() != "bl"@.len()); lemma_words_differ("sbc", "bl"); }
    }
    assert forall|k: int| 0 <= k < 9 implies #[trigger] ARM64_LOGIC@[k].spec_bytes() != "bl".spec_bytes() by {
        if k == 0 { assert(ARM64_LOGIC@[0] == "and"); reveal_strlit("and"); assert("and"@.len() != "bl"@.len()); lemma_words_differ("and", "bl"); }
        if k == 1 { assert(ARM64_LOGIC@[1] == "orr"); reveal_strlit("orr"); assert("orr"@.len() != "bl"@.len()); lemma_words_differ("orr", "bl"); }
        if k == 2 { assert(ARM64_LOGIC@[2] == "eor"); reveal_strlit("eor"); assert("eor"@.len() != "bl"@.len()); lemma_words_differ("eor", "bl"); }
        if k == 3 { assert(ARM64_LOGIC@[3] == "mvn"); reveal_strlit("mvn"); assert("mvn"@.len() != "bl"@.len()); lemma_words_differ("mvn", "bl"); }
        if k == 4 { assert(ARM64_LOGIC@[4] == "bic"); reveal_strlit("bic"); assert("bic"@.len() != "bl"@.len()); lemma_words_differ("bic", "bl"); }
        if k == 5 { assert(ARM64_LOGIC@[5] == "lsl"); reveal_strlit("lsl"); assert("lsl"@.len() != "bl"@.len()); lemma_words_differ("lsl", "bl"); }
        if k == 6 { assert(ARM64_LOGIC@[6] == "lsr"); reveal_strlit("lsr"); assert("lsr"@.len() != "bl"@.len()); lemma_words_differ("lsr", "bl"); }
        if k == 7 { assert(ARM64_LOGIC@[7] == "asr"); reveal_strlit("asr"); assert("asr"@.len() != "bl"@.len()); lemma_words_differ("asr", "bl"); }
        if k == 8 { assert(ARM64_LOGIC@[8] == "ror"); reveal_strlit("ror"); assert("ror"@.len() != "bl"@.len()); lemma_words_differ("ror", "bl"); }
    }
}

proof fn lemma_arm64_word_br()
    ensures
        crate::instruction::spec_categorize_arm64("br".spec_bytes()) == Category::ControlFlow,
{
    reveal_strlit("br");
    lemma_not_conditional("br");
    assert(ARM64_CONTROL@[2] == "br");
    assert forall|k: int| 0 <= k < 16 implies #[trigger] ARM64_MOV@[k].spec_bytes() != "br".spec_bytes() by {
        if k == 0 { assert(ARM64_MOV@[0] == "mov"); reveal_strlit("mov"); assert("mov"@.len() != "br"@.len()); lemma_words_differ("mov", "br"); }
        if k == 1 { assert(ARM64_MOV@[1] == "movz"); reveal_strlit("movz"); assert("movz"@.len() != "br"@.len()); lemma_words_differ("movz", "br"); }
        if k == 2 { assert(ARM64_MOV@[2] == "movn"); reveal_strlit("movn"); assert("movn"@.len() != "br"@.len()); lemma_words_differ("movn", "br"); }
        if k == 3 { assert(ARM64_MOV@[3] == "movk"); reveal_strlit("movk"); assert("movk"@.len() != "br"@.len()); lemma_words_differ("movk", "br"); }
        if k == 4 { assert(ARM64_MOV@[4] == "ldr"); reveal_strlit("ldr"); assert("ldr"@.len() != "br"@.len()); lemma_words_differ("ldr", "br"); }
        if k == 5 { assert(ARM64_MOV@[5] == "str"); reveal_strlit("str"); assert("str"@.len() != "br"@.len()); lemma_words_differ("str", "br"); }
        if k == 6 { assert(ARM64_MOV@[6] == "ldp"); reveal_strlit("ldp"); assert("ldp"@.len() != "br"@.len()); lemma_words_differ("ldp", "br"); }
        if k == 7 { assert(ARM64_MOV@[7] == "stp"); reveal_strlit("stp"); assert("stp"@.len() != "br"@.len()); lemma_words_differ("stp", "br"); }
        if k == 8 { assert(ARM64_MOV@[8] == "ldur"); reveal_strlit("ldur"); assert("ldur"@.len() != "br"@.len()); lemma_words_differ("ldur", "br"); }
        if k == 9 { assert(ARM64_MOV@[9] == "stur"); reveal_strlit("stur"); assert("stur"@.len() != "br"@.len()); lemma_words_differ("stur", "br"); }
        if k == 10 { assert(ARM64_MOV@[10] == "adr"); reveal_strlit("adr"); assert("adr"@.len() != "br"@.len()); lemma_words_differ("adr", "br"); }
        if k == 11 { assert(ARM64_MOV@[11] == "adrp"); reveal_strlit("adrp"); assert("adrp"@.len() != "br"@.len()); lemma_words_differ("adrp", "br"); }
        if k == 12 { assert(ARM64_MOV@[12] == "ldrb"); reveal_strlit("ldrb"); assert("ldrb"@.len() != "br"@.len()); lemma_words_differ("ldrb", "br"); }
        if k == 13 { assert(ARM64_MOV@[13] == "strb"); reveal_strlit("strb"); assert("strb"@.len() != "br"@.len()); lemma_words_differ("strb", "br"); }
        if k == 14 { assert(ARM64_MOV@[14] == "ldrh"); reveal_strlit("ldrh"); assert("ldrh"@.len() != "br"@.len()); lemma_words_differ("ldrh", "br"); }
        if k == 15 { assert(ARM64_MOV@[15] == "strh"); reveal_strlit("strh"); assert("strh"@.len() != "br"@.len()); lemma_words_differ("strh", "br"); }
    }
    assert forall|k: int| 0 <= k < 9 implies #[trigger] ARM64_ARITHMETIC@[k].spec_bytes() != "br".spec_bytes() by {
        if k == 0 { assert(ARM64_ARITHMETIC@[0] == "add"); reveal_strlit("add"); assert("add"@.len() != "br"@.len()); lemma_words_differ("add", "br"); }
        if k == 1 { assert(ARM64_ARITHMETIC@[1] == "sub"); reveal_strlit("sub"); assert("sub"@.len() != "br"@.len()); lemma_words_differ("sub", "br"); }
        if k == 2 { assert(ARM64_ARITHMETIC@[2] == "mul"); reveal_strlit("mul"); assert("mul"@.len() != "br"@.len()); lemma_words_differ("mul", "br"); }
        if k == 3 { assert(ARM64_ARITHMETIC@[3] == "madd"); reveal_strlit("madd"); assert("madd"@.len() != "br"@.len()); lemma_words_differ("madd", "br"); }
        if k == 4 { assert(ARM64_ARITHMETIC@[4] == "msub"); reveal_strlit("msub"); assert("msub"@.len() != "br"@.len()); lemma_words_differ("msub", "br"); }
        if k == 5 { assert(ARM64_ARITHMETIC@[5] == "sdiv"); reveal_strlit("sdiv"); assert("sdiv"@.len() != "br"@.len()); lemma_words_differ("sdiv", "br"); }
        if k == 6 { assert(ARM64_ARITHMETIC@[6] == "udiv"); reveal_strlit("udiv"); assert("udiv"@.len() != "br"@.len()); lemma_words_differ("udiv", "br"); }
        if k == 7 { assert(ARM64_ARITHMETIC@[7] == "adc"); reveal_strlit("adc"); assert("adc"@.len() != "br"@.len()); lemma_words_differ("adc", "br"); }
        if k == 8 { assert(ARM64_ARITHMETIC@[8] == "sbc"); reveal_strlit("sbc"); assert("sbc"@.len() != "br"@.len()); lemma_words_differ("sbc", "br"); }
    }
    assert forall|k: int| 0 <= k < 9 implies #[trigger] ARM64_LOGIC@[k].spec_bytes() != "br".spec_bytes() by {
        if k == 0 { assert(ARM64_LOGIC@[0] == "and"); reveal_strlit("and"); assert("and"@.len() != "br"@.len()); lemma_words_differ("and", "br"); }
        if k == 1 { assert(ARM64_LOGIC@[1] == "orr"); reveal_strlit("orr"); assert("orr"@.len() != "br"@.len()); lemma_words_differ("orr", "br"); }
        if k == 2 { assert(ARM64_LOGIC@[2] == "eor"); reveal_strlit("eor"); assert("eor"@.len() != "br"@.len()); lemma_words_differ("eor", "br"); }
        if k == 3 { assert(ARM64_LOGIC@[3] == "mvn"); reveal_strlit("mvn"); assert("mvn"@.len() != "br"@.len()); lemma_words_differ("mvn", "br"); }
        if k == 4 { assert(ARM64_LOGIC@[4] == "bic"); reveal_strlit("bic"); assert("bic"@.len() != "br"@.len()); lemma_words_differ("bic", "br"); }
        if k == 5 { assert(ARM64_LOGIC@[5] == "lsl"); reveal_strlit("lsl"); assert("lsl"@.len() != "br"@.len()); lemma_words_differ("lsl", "br"); }
        if k == 6 { assert(ARM64_LOGIC@[6] == "lsr"); reveal_strlit("lsr"); assert("lsr"@.len() != "br"@.len()); lemma_words_differ("lsr", "br"); }
        if k == 7 { assert(ARM64_LOGIC@[7] == "asr"); reveal_strlit("asr"); assert("asr"@.len() != "br"@.len()); lemma_words_differ("asr", "br"); }
        if k == 8 { assert(ARM64_LOGIC@[8] == "ror"); reveal_strlit("ror"); assert("ror"@.len() != "br"@.len()); lemma_words_differ("ror", "br"); }
    }
}

proof fn lemma_arm64_word_blr()
    ensures
        crate::instruction::spec_categorize_arm64("blr".spec_bytes()) == Category::ControlFlow,
{
    reveal_strlit("blr");
    lemma_not_conditional("blr");
    assert(ARM64_CONTROL@[3] == "blr");
    assert forall|k: int| 0 <= k < 16 implies #[trigger] ARM64_MOV@[k].spec_bytes() != "blr".spec_bytes() by {
        if k == 0 { assert(ARM64_MOV@[0] == "mov"); reveal_strlit("mov"); assert("mov"@[0] != "blr"@[0]); lemma_words_differ("mov", "blr"); }
        if k == 1 { assert(ARM64_MOV@[1] == "movz"); reveal_strlit("movz"); assert("movz"@.len() != "blr"@.len()); lemma_words_differ("movz", "blr"); }
        if k == 2 { assert(ARM64_MOV@[2] == "movn"); reveal_strlit("movn"); assert("movn"@.len() != "blr"@.len()); lemma_words_differ("movn", "blr"); }
        if k == 3 { assert(ARM64_MOV@[3] == "movk"); reveal_strlit("movk"); assert("movk"@.len() != "blr"@.len()); lemma_words_differ("movk", "blr"); }
        if k == 4 { assert(ARM64_MOV@[4] == "ldr"); reveal_strlit("ldr"); assert("ldr"@[0] != "blr"@[0]); lemma_words_differ("ldr", "blr"); }
        if k == 5 { assert(ARM64_MOV@[5] == "str"); reveal_strlit("str"); assert("str"@[0] != "blr"@[0]); lemma_words_differ("str", "blr"); }
        if k == 6 { assert(ARM64_MOV@[6] == "ldp"); reveal_strlit("ldp"); assert("ldp"@[0] != "blr"@[0]); lemma_words_differ("ldp", "blr"); }
        if k == 7 { assert(ARM64_MOV@[7] == "stp"); reveal_strlit("stp"); assert("stp"@[0] != "blr"@[0]); lemma_words_differ("stp", "blr"); }
        if k == 8 { assert(ARM64_MOV@[8] == "ldur"); reveal_strlit("ldur"); assert("ldur"@.len() != "blr"@.len()); lemma_words_differ("ldur", "blr"); }
        if k == 9 { assert(ARM64_MOV@[9] == "stur"); reveal_strlit("stur"); assert("stur"@.len() != "blr"@.len()); lemma_words_differ("stur", "blr"); }
        if k == 10 { assert(ARM64_MOV@[10] == "adr"); reveal_strlit("adr"); assert("adr"@[0] != "blr"@[0]); lemma_words_differ("adr", "blr"); }
        if k == 11 { assert(ARM64_MOV@[11] == "adrp"); reveal_strlit("adrp"); assert("adrp"@.len() != "blr"@.len()); lemma_words_differ("adrp", "blr"); }
        if k == 12 { assert(ARM64_MOV@[12] == "ldrb"); reveal_strlit("ldrb"); assert("ldrb"@.len() != "blr"@.len()); lemma_words_differ("ldrb", "blr"); }
        if k == 13 { assert(ARM64_MOV@[13] == "strb"); reveal_strlit("strb"); assert("strb"@.len() != "blr"@.len()); lemma_words_differ("strb", "blr"); }
        if k == 14 { assert(ARM64_MOV@[14] == "ldrh"); reveal_strlit("ldrh"); assert("ldrh"@.len() != "blr"@.len()); lemma_words_differ("ldrh", "blr"); }
        if k == 15 { assert(ARM64_MOV@[15] == "strh"); reveal_strlit("strh"); assert("strh"@.len() != "blr"@.len()); lemma_words_differ("strh", "blr"); }
    }
    assert forall|k: int| 0 <= k < 9 implies #[trigger] ARM64_ARITHMETIC@[k].spec_bytes() != "blr".spec_bytes() by {
        if k == 0 { assert(ARM64_ARITHMETIC@[0] == "add"); reveal_strlit("add"); assert("add"@[0] != "blr"@[0]); lemma_words_differ("add", "blr"); }
        if k == 1 { assert(ARM64_ARITHMETIC@[1] == "sub"); reveal_strlit("sub"); assert("sub"@[0] != "blr"@[0]); lemma_words_differ("sub", "blr"); }
        if k == 2 { assert(ARM64_ARITHMETIC@[2] == "mul"); reveal_strlit("mul"); assert("mul"@[0] != "blr"@[0]); lemma_words_differ("mul", "blr"); }
        if k == 3 { assert(ARM64_ARITHMETIC@[3] == "madd"); reveal_strlit("madd"); assert("madd"@.len() != "blr"@.len()); lemma_words_differ("madd", "blr"); }
        if k == 4 { assert(ARM64_ARITHMETIC@[4] == "msub"); reveal_strlit("msub"); assert("msub"@.len() != "blr"@.len()); lemma_words_differ("msub", "blr"); }
        if k == 5 { assert(ARM64_ARITHMETIC@[5] == "sdiv"); reveal_strlit("sdiv"); assert("sdiv"@.len() != "blr"@.len()); lemma_words_differ("sdiv", "blr"); }
        if k == 6 { assert(ARM64_ARITHMETIC@[6] == "udiv"); reveal_strlit("udiv"); assert("udiv"@.len() != "blr"@.len()); lemma_words_differ("udiv", "blr"); }
        if k == 7 { assert(ARM64_ARITHMETIC@[7] == "adc"); reveal_strlit("adc"); assert("adc"@[0] != "blr"@[0]); lemma_words_differ("adc", "blr"); }
        if k == 8 { assert(ARM64_ARITHMETIC@[8] == "sbc"); reveal_strlit("sbc"); assert("sbc"@[0] != "blr"@[0]); lemma_words_differ("sbc", "blr"); }
    }
    assert forall|k: int| 0 <= k < 9 implies #[trigger] ARM64_LOGIC@[k].spec_bytes() != "blr".spec_bytes() by {
        if k == 0 { assert(ARM64_LOGIC@[0] == "and"); reveal_strlit("and"); assert("and"@[0] != "blr"@[0]); lemma_words_differ("and", "blr"); }
        if k == 1 { assert(ARM64_LOGIC@[1] == "orr"); reveal_strlit("orr"); assert("orr"@[0] != "blr"@[0]); lemma_words_differ("orr", "blr"); }
        if k == 2 { assert(ARM64_LOGIC@[2] == "eor"); reveal_strlit("eor"); assert("eor"@[0] != "blr"@[0]); lemma_words_differ("eor", "blr"); }
        if k == 3 { assert(ARM64_LOGIC@[3] == "mvn"); reveal_strlit("mvn"); assert("mvn"@[0] != "blr"@[0]); lemma_words_differ("mvn", "blr"); }
        if k == 4 { assert(ARM64_LOGIC@[4] == "bic"); reveal_strlit("bic"); assert("bic"@[1] != "blr"@[1]); lemma_words_differ("bic", "blr"); }
        if k == 5 { assert(ARM64_LOGIC@[5] == "lsl"); reveal_strlit("lsl"); assert("lsl"@[0] != "blr"@[0]); lemma_words_differ("lsl", "blr"); }
        if k == 6 { assert(ARM64_LOGIC@[6] == "lsr"); reveal_strlit("lsr"); assert("lsr"@[0] != "blr"@[0]); lemma_words_differ("lsr", "blr"); }
        if k == 7 { assert(ARM64_LOGIC@[7] == "asr"); reveal_strlit("asr"); assert("asr"@[0] != "blr"@[0]); lemma_words_differ("asr", "blr"); }
        if k == 8 { assert(ARM64_LOGIC@[8] == "ror"); reveal_strlit("ror"); assert("ror"@[0] != "blr"@[0]); lemma_words_differ("ror", "blr"); }
    }
}

proof fn lemma_arm64_word_ret()
    ensures
        crate::instruction::spec_categorize_arm64("ret".spec_bytes()) == Category::ControlFlow,
{
    reveal_strlit("ret");
    lemma_not_conditional("ret");
    assert(ARM64_CONTROL@[4] == "ret");
    assert forall|k: int| 0 <= k < 16 implies #[trigger] ARM64_MOV@[k].spec_bytes() != "ret".spec_bytes() by {
        if k == 0 { assert(ARM64_MOV@[0] == "mov"); reveal_strlit("mov"); assert("mov"@[0] != "ret"@[0]); lemma_words_differ("mov", "ret"); }
        if k == 1 { assert(ARM64_MOV@[1] == "movz"); reveal_strlit("movz"); assert("movz"@.len() != "ret"@.len()); lemma_words_differ("movz", "ret"); }
        if k == 2 { assert(ARM64_MOV@[2] == "movn"); reveal_strlit("movn"); assert("movn"@.len() != "ret"@.len()); lemma_words_differ("movn", "ret"); }
        if k == 3 { assert(ARM64_MOV@[3] == "movk"); reveal_strlit("movk"); assert("movk"@.len() != "ret"@.len()); lemma_words_differ("movk", "ret"); }
        if k == 4 { assert(ARM64_MOV@[4] == "ldr"); reveal_strlit("ldr"); assert("ldr"@[0] != "ret"@[0]); lemma_words_differ("ldr", "ret"); }
        if k == 5 { assert(ARM64_MOV@[5] == "str"); reveal_strlit("str"); assert("str"@[0] != "ret"@[0]); lemma_words_differ("str", "ret"); }
        if k == 6 { assert(ARM64_MOV@[6] == "ldp"); reveal_strlit("ldp"); assert("ldp"@[0] != "ret"@[0]); lemma_words_differ("ldp", "ret"); }
        if k == 7 { assert(ARM64_MOV@[7] == "stp"); reveal_strlit("stp"); assert("stp"@[0] != "ret"@[0]); lemma_words_differ("stp", "ret"); }
        if k == 8 { assert(ARM64_MOV@[8] == "ldur"); reveal_strlit("ldur"); assert("ldur"@.len() != "ret"@.len()); lemma_words_differ("ldur", "ret"); }
        if k == 9 { assert(ARM64_MOV@[9] == "stur"); reveal_strlit("stur"); assert("stur"@.len() != "ret"@.len()); lemma_words_differ("stur", "ret"); }
        if k == 10 { assert(ARM64_MOV@[10] == "adr"); reveal_strlit("adr"); assert("adr"@[0] != "ret"@[0]); lemma_words_differ("adr", "ret"); }
        if k == 11 { assert(ARM64_MOV@[11] == "adrp"); reveal_strlit("adrp"); assert("adrp"@.len() != "ret"@.len()); lemma_words_differ("adrp", "ret"); }
        if k == 12 { assert(ARM64_MOV@[12] == "ldrb"); reveal_strlit("ldrb"); assert("ldrb"@.len() != "ret"@.len()); lemma_words_differ("ldrb", "ret"); }
        if k == 13 { assert(ARM64_MOV@[13] == "strb"); reveal_strlit("strb"); assert("strb"@.len() != "ret"@.len()); lemma_words_differ("strb", "ret"); }
        if k == 14 { assert(ARM64_MOV@[14] == "ldrh"); reveal_strlit("ldrh"); assert("ldrh"@.len() != "ret"@.len()); lemma_words_differ("ldrh", "ret"); }
        if k == 15 { assert(ARM64_MOV@[15] == "strh"); reveal_strlit("strh"); assert("strh"@.len() != "ret"@.len()); lemma_words_differ("strh", "ret"); }
    }
    assert forall|k: int| 0 <= k < 9 implies #[trigger] ARM64_ARITHMETIC@[k].spec_bytes() != "ret".spec_bytes() by {
        if k == 0 { assert(ARM64_ARITHMETIC@[0] == "add"); reveal_strlit("add"); assert("add"@[0] != "ret"@[0]); lemma_words_differ("add", "ret"); }
        if k == 1 { assert(ARM64_ARITHMETIC@[1] == "sub"); reveal_strlit("sub"); assert("sub"@[0] != "ret"@[0]); lemma_words_differ("sub", "ret"); }
        if k == 2 { assert(ARM64_ARITHMETIC@[2] == "mul"); reveal_strlit("mul"); assert("mul"@[0] != "ret"@[0]); lemma_words_differ("mul", "ret"); }
        if k == 3 { assert(ARM64_ARITHMETIC@[3] == "madd"); reveal_strlit("madd"); assert("madd"@.len() != "ret"@.len()); lemma_words_differ("madd", "ret"); }
        if k == 4 { assert(ARM64_ARITHMETIC@[4] == "msub"); reveal_strlit("msub"); assert("msub"@.len() != "ret"@.len()); lemma_words_differ("msub", "ret"); }
        if k == 5 { assert(ARM64_ARITHMETIC@[5] == "sdiv"); reveal_strlit("sdiv"); assert("sdiv"@.len() != "ret"@.len()); lemma_words_differ("sdiv", "ret"); }
        if k == 6 { assert(ARM64_ARITHMETIC@[6] == "udiv"); reveal_strlit("udiv"); assert("udiv"@.len() != "ret"@.len()); lemma_words_differ("udiv", "ret"); }
        if k == 7 { assert(ARM64_ARITHMETIC@[7] == "adc"); reveal_strlit("adc"); assert("adc"@[0] != "ret"@[0]); lemma_words_differ("adc", "ret"); }
        if k == 8 { assert(ARM64_ARITHMETIC@[8] == "sbc"); reveal_strlit("sbc"); assert("sbc"@[0] != "ret"@[0]); lemma_words_differ("sbc", "ret"); }
    }
    assert forall|k: int| 0 <= k < 9 implies #[trigger] ARM64_LOGIC@[k].spec_bytes() != "ret".spec_bytes() by {
        if k == 0 { assert(ARM64_LOGIC@[0] == "and"); reveal_strlit("and"); assert("and"@[0] != "ret"@[0]); lemma_words_differ("and", "ret"); }
        if k == 1 { assert(ARM64_LOGIC@[1] == "orr"); reveal_strlit("orr"); assert("orr"@[0] != "ret"@[0]); lemma_words_differ("orr", "ret"); }
        if k == 2 { assert(ARM64_LOGIC@[2] == "eor"); reveal_strlit("eor"); assert("eor"@[0] != "ret"@[0]); lemma_words_differ("eor", "ret"); }
        if k == 3 { assert(ARM64_LOGIC@[3] == "mvn"); reveal_strlit("mvn"); assert("mvn"@[0] != "ret"@[0]); lemma_words_differ("mvn", "ret"); }
        if k == 4 { assert(ARM64_LOGIC@[4] == "bic"); reveal_strlit("bic"); assert("bic"@[0] != "ret"@[0]); lemma_words_differ("bic", "ret"); }
        if k == 5 { assert(ARM64_LOGIC@[5] == "lsl"); reveal_strlit("lsl"); assert("lsl"@[0] != "ret"@[0]); lemma_words_differ("lsl", "ret"); }
        if k == 6 { assert(ARM64_LOGIC@[6] == "lsr"); reveal_strlit("lsr"); assert("lsr"@[0] != "ret"@[0]); lemma_words_differ("lsr", "ret"); }
        if k == 7 { assert(ARM64_LOGIC@[7] == "asr"); reveal_strlit("asr"); assert("asr"@[0] != "ret"@[0]); lemma_words_differ("asr", "ret"); }
        if k == 8 { assert(ARM64_LOGIC@[8] == "ror"); reveal_strlit("ror"); assert("ror"@[1] != "ret"@[1]); lemma_words_differ("ror", "ret"); }
    }
}

proof fn lemma_arm64_word_cbz()
    ensures
        crate::instruction::spec_categorize_arm64("cbz".spec_bytes()) == Category::ControlFlow,
{
    reveal_strlit("cbz");
    lemma_not_conditional("cbz");
    assert(ARM64_CONTROL@[5] == "cbz");
    assert forall|k: int| 0 <= k < 16 implies #[trigger] ARM64_MOV@[k].spec_bytes() != "cbz".spec_bytes() by {
        if k == 0 { assert(ARM64_MOV@[0] == "mov"); reveal_strlit("mov"); assert("mov"@[0] != "cbz"@[0]); lemma_words_differ("mov", "cbz"); }
        if k == 1 { assert(ARM64_MOV@[1] == "movz"); reveal_strlit("movz"); assert("movz"@.len() != "cbz"@.len()); lemma_words_differ("movz", "cbz"); }
        if k == 2 { assert(ARM64_MOV@[2] == "movn"); reveal_strlit("movn"); assert("movn"@.len() != "cbz"@.len()); lemma_words_differ("movn", "cbz"); }
        if k == 3 { assert(ARM64_MOV@[3] == "movk"); reveal_strlit("movk"); assert("movk"@.len() != "cbz"@.len()); lemma_words_differ("movk", "cbz"); }
        if k == 4 { assert(ARM64_MOV@[4] == "ldr"); reveal_strlit("ldr"); assert("ldr"@[0] != "cbz"@[0]); lemma_words_differ("ldr", "cbz"); }
        if k == 5 { assert(ARM64_MOV@[5] == "str"); reveal_strlit("str"); assert("str"@[0] != "cbz"@[0]); lemma_words_differ("str", "cbz"); }
        if k == 6 { assert(ARM64_MOV@[6] == "ldp"); reveal_strlit("ldp"); assert("ldp"@[0] != "cbz"@[0]); lemma_words_differ("ldp", "cbz"); }
        if k == 7 { assert(ARM64_MOV@[7] == "stp"); reveal_strlit("stp"); assert("stp"@[0] != "cbz"@[0]); lemma_words_differ("stp", "cbz"); }
        if k == 8 { assert(ARM64_MOV@[8] == "ldur"); reveal_strlit("ldur"); assert("ldur"@.len() != "cbz"@.len()); lemma_words_differ("ldur", "cbz"); }
        if k == 9 { assert(ARM64_MOV@[9] == "stur"); reveal_strlit("stur"); assert("stur"@.len() != "cbz"@.len()); lemma_words_differ("stur", "cbz"); }
        if k == 10 { assert(ARM64_MOV@[10] == "adr"); reveal_strlit("adr"); assert("adr"@[0] != "cbz"@[0]); lemma_words_differ("adr", "cbz"); }
        if k == 11 { assert(ARM64_MOV@[11] == "adrp"); reveal_strlit("adrp"); assert("adrp"@.len() != "cbz"@.len()); lemma_words_differ("adrp", "cbz"); }
        if k == 12 { assert(ARM64_MOV@[12] == "ldrb"); reveal_strlit("ldrb"); assert("ldrb"@.len() != "cbz"@.len()); lemma_words_differ("ldrb", "cbz"); }
        if k == 13 { assert(ARM64_MOV@[13] == "strb"); reveal_strlit("strb"); assert("strb"@.len() != "cbz"@.len()); lemma_words_differ("strb", "cbz"); }
        if k == 14 { assert(ARM64_MOV@[14] == "ldrh"); reveal_strlit("ldrh"); assert("ldrh"@.len() != "cbz"@.len()); lemma_words_differ("ldrh", "cbz"); }
        if k == 15 { assert(ARM64_MOV@[15] == "strh"); reveal_strlit("strh"); assert("strh"@.len() != "cbz"@.len()); lemma_words_differ("strh", "cbz"); }
    }
    assert forall|k: int| 0 <= k < 9 implies #[trigger] ARM64_ARITHMETIC@[k].spec_bytes() != "cbz".spec_bytes() by {
        if k == 0 { assert(ARM64_ARITHMETIC@[0] == "add"); reveal_strlit("add"); assert("add"@[0] != "cbz"@[0]); lemma_words_differ("add", "cbz"); }
        if k == 1 { assert(ARM64_ARITHMETIC@[1] == "sub"); reveal_strlit("sub"); assert("sub"@[0] != "cbz"@[0]); lemma_words_differ("sub", "cbz"); }
        if k == 2 { assert(ARM64_ARITHMETIC@[2] == "mul"); reveal_strlit("mul"); assert("mul"@[0] != "cbz"@[0]); lemma_words_differ("mul", "cbz"); }
        if k == 3 { assert(ARM64_ARITHMETIC@[3] == "madd"); reveal_strlit("madd"); assert("madd"@.len() != "cbz"@.len()); lemma_words_differ("madd", "cbz"); }
        if k == 4 { assert(ARM64_ARITHMETIC@[4] == "msub"); reveal_strlit("msub"); assert("msub"@.len() != "cbz"@.len()); lemma_words_differ("msub", "cbz"); }
        if k == 5 { assert(ARM64_ARITHMETIC@[5] == "sdiv"); reveal_strlit("sdiv"); assert("sdiv"@.len() != "cbz"@.len()); lemma_words_differ("sdiv", "cbz"); }
        if k == 6 { assert(ARM64_ARITHMETIC@[6] == "udiv"); reveal_strlit("udiv"); assert("udiv"@.len() != "cbz"@.len()); lemma_words_differ("udiv", "cbz"); }
        if k == 7 { assert(ARM64_ARITHMETIC@[7] == "adc"); reveal_strlit("adc"); assert("adc"@[0] != "cbz"@[0]); lemma_words_differ("adc", "cbz"); }
        if k == 8 { assert(ARM64_ARITHMETIC@[8] == "sbc"); reveal_strlit("sbc"); assert("sbc"@[0] != "cbz"@[0]); lemma_words_differ("sbc", "cbz"); }
    }
    assert forall|k: int| 0 <= k < 9 implies #[trigger] ARM64_LOGIC@[k].spec_bytes() != "cbz".spec_bytes() by {
        if k == 0 { assert(ARM64_LOGIC@[0] == "and"); reveal_strlit("and"); assert("and"@[0] != "cbz"@[0]); lemma_words_differ("and", "cbz"); }
        if k == 1 { assert(ARM64_LOGIC@[1] == "orr"); reveal_strlit("orr"); assert("orr"@[0] != "cbz"@[0]); lemma_words_differ("orr", "cbz"); }
        if k == 2 { assert(ARM64_LOGIC@[2] == "eor"); reveal_strlit("eor"); assert("eor"@[0] != "cbz"@[0]); lemma_words_differ("eor", "cbz"); }
        if k == 3 { assert(ARM64_LOGIC@[3] == "mvn"); reveal_strlit("mvn"); assert("mvn"@[0] != "cbz"@[0]); lemma_words_differ("mvn", "cbz"); }
        if k == 4 { assert(ARM64_LOGIC@[4] == "bic"); reveal_strlit("bic"); assert("bic"@[0] != "cbz"@[0]); lemma_words_differ("bic", "cbz"); }
        if k == 5 { assert(ARM64_LOGIC@[5] == "lsl"); reveal_strlit("lsl"); assert("lsl"@[0] != "cbz"@[0]); lemma_words_differ("lsl", "cbz"); }
        if k == 6 { assert(ARM64_LOGIC@[6] == "lsr"); reveal_strlit("lsr"); assert("lsr"@[0] != "cbz"@[0]); lemma_words_differ("lsr", "cbz"); }
        if k == 7 { assert(ARM64_LOGIC@[7] == "asr"); reveal_strlit("asr"); assert("asr"@[0] != "cbz"@[0]); lemma_words_differ("asr", "cbz"); }
        if k == 8 { assert(ARM64_LOGIC@[8] == "ror"); reveal_strlit("ror"); assert("ror"@[0] != "cbz"@[0]); lemma_words_differ("ror", "cbz"); }
    }
}

proof fn lemma_arm64_word_cbnz()
    ensures
        crate::instruction::spec_categorize_arm64("cbnz".spec_bytes()) == Category::ControlFlow,
{
    reveal_strlit("cbnz");
    lemma_not_conditional("cbnz");
    assert(ARM64_CONTROL@[6] == "cbnz");
    assert forall|k: int| 0 <= k < 16 implies #[trigger] ARM64_MOV@[k].spec_bytes() != "cbnz".spec_bytes() by {
        if k == 0 { assert(ARM64_MOV@[0] == "mov"); reveal_strlit("mov"); assert("mov"@.len() != "cbnz"@.len()); lemma_words_differ("mov", "cbnz"); }
        if k == 1 { assert(ARM64_MOV@[1] == "movz"); reveal_strlit("movz"); assert("movz"@[0] != "cbnz"@[0]); lemma_words_differ("movz", "cbnz"); }
        if k == 2 { assert(ARM64_MOV@[2] == "movn"); reveal_strlit("movn"); assert("movn"@[0] != "cbnz"@[0]); lemma_words_differ("movn", "cbnz"); }
        if k == 3 { assert(ARM64_MOV@[3] == "movk"); reveal_strlit("movk"); assert("movk"@[0] != "cbnz"@[0]); lemma_words_differ("movk", "cbnz"); }
        if k == 4 { assert(ARM64_MOV@[4] == "ldr"); reveal_strlit("ldr"); assert("ldr"@.len() != "cbnz"@.len()); lemma_words_differ("ldr", "cbnz"); }
        if k == 5 { assert(ARM64_MOV@[5] == "str"); reveal_strlit("str"); assert("str"@.len() != "cbnz"@.len()); lemma_words_differ("str", "cbnz"); }
        if k == 6 { assert(ARM64_MOV@[6] == "ldp"); reveal_strlit("ldp"); assert("ldp"@.len() != "cbnz"@.len()); lemma_words_differ("ldp", "cbnz"); }
        if k == 7 { assert(ARM64_MOV@[7] == "stp"); reveal_strlit("stp"); assert("stp"@.len() != "cbnz"@.len()); lemma_words_differ("stp", "cbnz"); }
        if k == 8 { assert(ARM64_MOV@[8] == "ldur"); reveal_strlit("ldur"); assert("ldur"@[0] != "cbnz"@[0]); lemma_words_differ("ldur", "cbnz"); }
        if k == 9 { assert(ARM64_MOV@[9] == "stur"); reveal_strlit("stur"); assert("stur"@[0] != "cbnz"@[0]); lemma_words_differ("stur", "cbnz"); }
        if k == 10 { assert(ARM64_MOV@[10] == "adr"); reveal_strlit("adr"); assert("adr"@.len() != "cbnz"@.len()); lemma_words_differ("adr", "cbnz"); }
        if k == 11 { assert(ARM64_MOV@[11] == "adrp"); reveal_strlit("adrp"); assert("adrp"@[0] != "cbnz"@[0]); lemma_words_differ("adrp", "cbnz"); }
        if k == 12 { assert(ARM64_MOV@[12] == "ldrb"); reveal_strlit("ldrb"); assert("ldrb"@[0] != "cbnz"@[0]); lemma_words_differ("ldrb", "cbnz"); }
        if k == 13 { assert(ARM64_MOV@[13] == "strb"); reveal_strlit("strb"); assert("strb"@[0] != "cbnz"@[0]); lemma_words_differ("strb", "cbnz"); }
        if k == 14 { assert(ARM64_MOV@[14] == "ldrh"); reveal_strlit("ldrh"); assert("ldrh"@[0] != "cbnz"@[0]); lemma_words_differ("ldrh", "cbnz"); }
        if k == 15 { assert(ARM64_MOV@[15] == "strh"); reveal_strlit("strh"); assert("strh"@[0] != "cbnz"@[0]); lemma_words_differ("strh", "cbnz"); }
    }
    assert forall|k: int| 0 <= k < 9 implies #[trigger] ARM64_ARITHMETIC@[k].spec_bytes() != "cbnz".spec_bytes() by {
        if k == 0 { assert(ARM64_ARITHMETIC@[0] == "add"); reveal_strlit("add"); assert("add"@.len() != "cbnz"@.len()); lemma_words_differ("add", "cbnz"); }
        if k == 1 { assert(ARM64_ARITHMETIC@[1] == "sub"); reveal_strlit("sub"); assert("sub"@.len() != "cbnz"@.len()); lemma_words_differ("sub", "cbnz"); }
        if k == 2 { assert(ARM64_ARITHMETIC@[2] == "mul"); reveal_strlit("mul"); assert("mul"@.len() != "cbnz"@.len()); lemma_words_differ("mul", "cbnz"); }
        if k == 3 { assert(ARM64_ARITHMETIC@[3] == "madd"); reveal_strlit("madd"); assert("madd"@[0] != "cbnz"@[0]); lemma_words_differ("madd", "cbnz"); }
        if k == 4 { assert(ARM64_ARITHMETIC@[4] == "msub"); reveal_strlit("msub"); assert("msub"@[0] != "cbnz"@[0]); lemma_words_differ("msub", "cbnz"); }
        if k == 5 { assert(ARM64_ARITHMETIC@[5] == "sdiv"); reveal_strlit("sdiv"); assert("sdiv"@[0] != "cbnz"@[0]); lemma_words_differ("sdiv", "cbnz"); }
        if k == 6 { assert(ARM64_ARITHMETIC@[6] == "udiv"); reveal_strlit("udiv"); assert("udiv"@[0] != "cbnz"@[0]); lemma_words_differ("udiv", "cbnz"); }
        if k == 7 { assert(ARM64_ARITHMETIC@[7] == "adc"); reveal_strlit("adc"); assert("adc"@.len() != "cbnz"@.len()); lemma_words_differ("adc", "cbnz"); }
        if k == 8 { assert(ARM64_ARITHMETIC@[8] == "sbc"); reveal_strlit("sbc"); assert("sbc"@.len() != "cbnz"@.len()); lemma_words_differ("sbc", "cbnz"); }
    }
    assert forall|k: int| 0 <= k < 9 implies #[trigger] ARM64_LOGIC@[k].spec_bytes() != "cbnz".spec_bytes() by {
        if k == 0 { assert(ARM64_LOGIC@[0] == "and"); reveal_strlit("and"); assert("and"@.len() != "cbnz"@.len()); lemma_words_differ("and", "cbnz"); }
        if k == 1 { assert(ARM64_LOGIC@[1] == "orr"); reveal_strlit("orr"); assert("orr"@.len() != "cbnz"@.len()); lemma_words_differ("orr", "cbnz"); }
        if k == 2 { assert(ARM64_LOGIC@[2] == "eor"); reveal_strlit("eor"); assert("eor"@.len() != "cbnz"@.len()); lemma_words_differ("eor", "cbnz"); }
        if k == 3 { assert(ARM64_LOGIC@[3] == "mvn"); reveal_strlit("mvn"); assert("mvn"@.len() != "cbnz"@.len()); lemma_words_differ("mvn", "cbnz"); }
        if k == 4 { assert(ARM64_LOGIC@[4] == "bic"); reveal_strlit("bic"); assert("bic"@.len() != "cbnz"@.len()); lemma_words_differ("bic", "cbnz"); }
        if k == 5 { assert(ARM64_LOGIC@[5] == "lsl"); reveal_strlit("lsl"); assert("lsl"@.len() != "cbnz"@.len()); lemma_words_differ("lsl", "cbnz"); }
        if k == 6 { assert(ARM64_LOGIC@[6] == "lsr"); reveal_strlit("lsr"); assert("lsr"@.len() != "cbnz"@.len()); lemma_words_differ("lsr", "cbnz"); }
        if k == 7 { assert(ARM64_LOGIC@[7] == "asr"); reveal_strlit("asr"); assert("asr"@.len() != "cbnz"@.len()); lemma_words_differ("asr", "cbnz"); }
        if k == 8 { assert(ARM64_LOGIC@[8] == "ror"); reveal_strlit("ror"); assert("ror"@.len() != "cbnz"@.len()); lemma_words_differ("ror", "cbnz"); }
    }
}

proof fn lemma_arm64_word_tbz()
    ensures
        crate::instruction::spec_categorize_arm64("tbz".spec_bytes()) == Category::ControlFlow,
{
    reveal_strlit("tbz");
    lemma_not_conditional("tbz");
    assert(ARM64_CONTROL@[7] == "tbz");
    assert forall|k: int| 0 <= k < 16 implies #[trigger] ARM64_MOV@[k].spec_bytes() != "tbz".spec_bytes() by {
        if k == 0 { assert(ARM64_MOV@[0] == "mov"); reveal_strlit("mov"); assert("mov"@[0] != "tbz"@[0]); lemma_words_differ("mov", "tbz"); }
        if k == 1 { assert(ARM64_MOV@[1] == "movz"); reveal_strlit("movz"); assert("movz"@.len() != "tbz"@.len()); lemma_words_differ("movz", "tbz"); }
        if k == 2 { assert(ARM64_MOV@[2] == "movn"); reveal_strlit("movn"); assert("movn"@.len() != "tbz"@.len()); lemma_words_differ("movn", "tbz"); }
        if k == 3 { assert(ARM64_MOV@[3] == "movk"); reveal_strlit("movk"); assert("movk"@.len() != "tbz"@.len()); lemma_words_differ("movk", "tbz"); }
        if k == 4 { assert(ARM64_MOV@[4] == "ldr"); reveal_strlit("ldr"); assert("ldr"@[0] != "tbz"@[0]); lemma_words_differ("ldr", "tbz"); }
        if k == 5 { assert(ARM64_MOV@[5] == "str"); reveal_strlit("str"); assert("str"@[0] != "tbz"@[0]); lemma_words_differ("str", "tbz"); }
        if k == 6 { assert(ARM64_MOV@[6] == "ldp"); reveal_strlit("ldp"); assert("ldp"@[0] != "tbz"@[0]); lemma_words_differ("ldp", "tbz"); }
        if k == 7 { assert(ARM64_MOV@[7] == "stp"); reveal_strlit("stp"); assert("stp"@[0] != "tbz"@[0]); lemma_words_differ("stp", "tbz"); }
        if k == 8 { assert(ARM64_MOV@[8] == "ldur"); reveal_strlit("ldur"); assert("ldur"@.len() != "tbz"@.len()); lemma_words_differ("ldur", "tbz"); }
        if k == 9 { assert(ARM64_MOV@[9] == "stur"); reveal_strlit("stur"); assert("stur"@.len() != "tbz"@.len()); lemma_words_differ("stur", "tbz"); }
        if k == 10 { assert(ARM64_MOV@[10] == "adr"); reveal_strlit("adr"); assert("adr"@[0] != "tbz"@[0]); lemma_words_differ("adr", "tbz"); }
        if k == 11 { assert(ARM64_MOV@[11] == "adrp"); reveal_strlit("adrp"); assert("adrp"@.len() != "tbz"@.len()); lemma_words_differ("adrp", "tbz"); }
        if k == 12 { assert(ARM64_MOV@[12] == "ldrb"); reveal_strlit("ldrb"); assert("ldrb"@.len() != "tbz"@.len()); lemma_words_differ("ldrb", "tbz"); }
        if k == 13 { assert(ARM64_MOV@[13] == "strb"); reveal_strlit("strb"); assert("strb"@.len() != "tbz"@.len()); lemma_words_differ("strb", "tbz"); }
        if k == 14 { assert(ARM64_MOV@[14] == "ldrh"); reveal_strlit("ldrh"); assert("ldrh"@.len() != "tbz"@.len()); lemma_words_differ("ldrh", "tbz"); }
        if k == 15 { assert(ARM64_MOV@[15] == "strh"); reveal_strlit("strh"); assert("strh"@.len() != "tbz"@.len()); lemma_words_differ("strh", "tbz"); }
    }
    assert forall|k: int| 0 <= k < 9 implies #[trigger] ARM64_ARITHMETIC@[k].spec_bytes() != "tbz".spec_bytes() by {
        if k == 0 { assert(ARM64_ARITHMETIC@[0] == "add"); reveal_strlit("add"); assert("add"@[0] != "tbz"@[0]); lemma_words_differ("add", "tbz"); }
        if k == 1 { assert(ARM64_ARITHMETIC@[1] == "sub"); reveal_strlit("sub"); assert("sub"@[0] != "tbz"@[0]); lemma_words_differ("sub", "tbz"); }
        if k == 2 { assert(ARM64_ARITHMETIC@[2] == "mul"); reveal_strlit("mul"); assert("mul"@[0] != "tbz"@[0]); lemma_words_differ("mul", "tbz"); }
        if k == 3 { assert(ARM64_ARITHMETIC@[3] == "madd"); reveal_strlit("madd"); assert("madd"@.len() != "tbz"@.len()); lemma_words_differ("madd", "tbz"); }
        if k == 4 { assert(ARM64_ARITHMETIC@[4] == "msub"); reveal_strlit("msub"); assert("msub"@.len() != "tbz"@.len()); lemma_words_differ("msub", "tbz"); }
        if k == 5 { assert(ARM64_ARITHMETIC@[5] == "sdiv"); reveal_strlit("sdiv"); assert("sdiv"@.len() != "tbz"@.len()); lemma_words_differ("sdiv", "tbz"); }
        if k == 6 { assert(ARM64_ARITHMETIC@[6] == "udiv"); reveal_strlit("udiv"); assert("udiv"@.len() != "tbz"@.len()); lemma_words_differ("udiv", "tbz"); }
        if k == 7 { assert(ARM64_ARITHMETIC@[7] == "adc"); reveal_strlit("adc"); assert("adc"@[0] != "tbz"@[0]); lemma_words_differ("adc", "tbz"); }
        if k == 8 { assert(ARM64_ARITHMETIC@[8] == "sbc"); reveal_strlit("sbc"); assert("sbc"@[0] != "tbz"@[0]); lemma_words_differ("sbc", "tbz"); }
    }
    assert forall|k: int| 0 <= k < 9 implies #[trigger] ARM64_LOGIC@[k].spec_bytes() != "tbz".spec_bytes() by {
        if k == 0 { assert(ARM64_LOGIC@[0] == "and"); reveal_strlit("and"); assert("and"@[0] != "tbz"@[0]); lemma_words_differ("and", "tbz"); }
        if k == 1 { assert(ARM64_LOGIC@[1] == "orr"); reveal_strlit("orr"); assert("orr"@[0] != "tbz"@[0]); lemma_words_differ("orr", "tbz"); }
        if k == 2 { assert(ARM64_LOGIC@[2] == "eor"); reveal_strlit("eor"); assert("eor"@[0] != "tbz"@[0]); lemma_words_differ("eor", "tbz"); }
        if k == 3 { assert(ARM64_LOGIC@[3] == "mvn"); reveal_strlit("mvn"); assert("mvn"@[0] != "tbz"@[0]); lemma_words_differ("mvn", "tbz"); }
        if k == 4 { assert(ARM64_LOGIC@[4] == "bic"); reveal_strlit("bic"); assert("bic"@[0] != "tbz"@[0]); lemma_words_differ("bic", "tbz"); }
        if k == 5 { assert(ARM64_LOGIC@[5] == "lsl"); reveal_strlit("lsl"); assert("lsl"@[0] != "tbz"@[0]); lemma_words_differ("lsl", "tbz"); }
        if k == 6 { assert(ARM64_LOGIC@[6] == "lsr"); reveal_strlit("lsr"); assert("lsr"@[0] != "tbz"@[0]); lemma_words_differ("lsr", "tbz"); }
        if k == 7 { assert(ARM64_LOGIC@[7] == "asr"); reveal_strlit("asr"); assert("asr"@[0] != "tbz"@[0]); lemma_words_differ("asr", "tbz"); }
        if k == 8 { assert(ARM64_LOGIC@[8] == "ror"); reveal_strlit("ror"); assert("ror"@[0] != "tbz"@[0]); lemma_words_differ("ror", "tbz"); }
    }
}

proof fn lemma_arm64_word_tbnz()
    ensures
        crate::instruction::spec_categorize_arm64("tbnz".spec_bytes()) == Category::ControlFlow,
{
    reveal_strlit("tbnz");
    lemma_not_conditional("tbnz");
    assert(ARM64_CONTROL@[8] == "tbnz");
    assert forall|k: int| 0 <= k < 16 implies #[trigger] ARM64_MOV@[k].spec_bytes() != "tbnz".spec_bytes() by {
        if k == 0 { assert(ARM64_MOV@[0] == "mov"); reveal_strlit("mov"); assert("mov"@.len() != "tbnz"@.len()); lemma_words_differ("mov", "tbnz"); }
        if k == 1 { assert(ARM64_MOV@[1] == "movz"); reveal_strlit("movz"); assert("movz"@[0] != "tbnz"@[0]); lemma_words_differ("movz", "tbnz"); }
        if k == 2 { assert(ARM64_MOV@[2] == "movn"); reveal_strlit("movn"); assert("movn"@[0] != "tbnz"@[0]); lemma_words_differ("movn", "tbnz"); }
        if k == 3 { assert(ARM64_MOV@[3] == "movk"); reveal_strlit("movk"); assert("movk"@[0] != "tbnz"@[0]); lemma_words_differ("movk", "tbnz"); }
        if k == 4 { assert(ARM64_MOV@[4] == "ldr"); reveal_strlit("ldr"); assert("ldr"@.len() != "tbnz"@.len()); lemma_words_differ("ldr", "tbnz"); }
        if k == 5 { assert(ARM64_MOV@[5] == "str"); reveal_strlit("str"); assert("str"@.len() != "tbnz"@.len()); lemma_words_differ("str", "tbnz"); }
        if k == 6 { assert(ARM64_MOV@[6] == "ldp"); reveal_strlit("ldp"); assert("ldp"@.len() != "tbnz"@.len()); lemma_words_differ("ldp", "tbnz"); }
        if k == 7 { assert(ARM64_MOV@[7] == "stp"); reveal_strlit("stp"); assert("stp"@.len() != "tbnz"@.len()); lemma_words_differ("stp", "tbnz"); }
        if k == 8 { assert(ARM64_MOV@[8] == "ldur"); reveal_strlit("ldur"); assert("ldur"@[0] != "tbnz"@[0]); lemma_words_differ("ldur", "tbnz"); }
        if k == 9 { assert(ARM64_MOV@[9] == "stur"); reveal_strlit("stur"); assert("stur"@[0] != "tbnz"@[0]); lemma_words_differ("stur", "tbnz"); }
        if k == 10 { assert(ARM64_MOV@[10] == "adr"); reveal_strlit("adr"); assert("adr"@.len() != "tbnz"@.len()); lemma_words_differ("adr", "tbnz"); }
        if k == 11 { assert(ARM64_MOV@[11] == "adrp"); reveal_strlit("adrp"); assert("adrp"@[0] != "tbnz"@[0]); lemma_words_differ("adrp", "tbnz"); }
        if k == 12 { assert(ARM64_MOV@[12] == "ldrb"); reveal_strlit("ldrb"); assert("ldrb"@[0] != "tbnz"@[0]); lemma_words_differ("ldrb", "tbnz"); }
        if k == 13 { assert(ARM64_MOV@[13] == "strb"); reveal_strlit("strb"); assert("strb"@[0] != "tbnz"@[0]); lemma_words_differ("strb", "tbnz"); }
        if k == 14 { assert(ARM64_MOV@[14] == "ldrh"); reveal_strlit("ldrh"); assert("ldrh"@[0] != "tbnz"@[0]); lemma_words_differ("ldrh", "tbnz"); }
        if k == 15 { assert(ARM64_MOV@[15] == "strh"); reveal_strlit("strh"); assert("strh"@[0] != "tbnz"@[0]); lemma_words_differ("strh", "tbnz"); }
    }
    assert forall|k: int| 0 <= k < 9 implies #[trigger] ARM64_ARITHMETIC@[k].spec_bytes() != "tbnz".spec_bytes() by {
        if k == 0 { assert(ARM64_ARITHMETIC@[0] == "add"); reveal_strlit("add"); assert("add"@.len() != "tbnz"@.len()); lemma_words_differ("add", "tbnz"); }
        if k == 1 { assert(ARM64_ARITHMETIC@[1] == "sub"); reveal_strlit("sub"); assert("sub"@.len() != "tbnz"@.len()); lemma_words_differ("sub", "tbnz"); }
        if k == 2 { assert(ARM64_ARITHMETIC@[2] == "mul"); reveal_strlit("mul"); assert("mul"@.len() != "tbnz"@.len()); lemma_words_differ("mul", "tbnz"); }
        if k == 3 { assert(ARM64_ARITHMETIC@[3] == "madd"); reveal_strlit("madd"); assert("madd"@[0] != "tbnz"@[0]); lemma_words_differ("madd", "tbnz"); }
        if k == 4 { assert(ARM64_ARITHMETIC@[4] == "msub"); reveal_strlit("msub"); assert("msub"@[0] != "tbnz"@[0]); lemma_words_differ("msub", "tbnz"); }
        if k == 5 { assert(ARM64_ARITHMETIC@[5] == "sdiv"); reveal_strlit("sdiv"); assert("sdiv"@[0] != "tbnz"@[0]); lemma_words_differ("sdiv", "tbnz"); }
        if k == 6 { assert(ARM64_ARITHMETIC@[6] == "udiv"); reveal_strlit("udiv"); assert("udiv"@[0] != "tbnz"@[0]); lemma_words_differ("udiv", "tbnz"); }
        if k == 7 { assert(ARM64_ARITHMETIC@[7] == "adc"); reveal_strlit("adc"); assert("adc"@.len() != "tbnz"@.len()); lemma_words_differ("adc", "tbnz"); }
        if k == 8 { assert(ARM64_ARITHMETIC@[8] == "sbc"); reveal_strlit("sbc"); assert("sbc"@.len() != "tbnz"@.len()); lemma_words_differ("sbc", "tbnz"); }
    }
    assert forall|k: int| 0 <= k < 9 implies #[trigger] ARM64_LOGIC@[k].spec_bytes() != "tbnz".spec_bytes() by {
        if k == 0 { assert(ARM64_LOGIC@[0] == "and"); reveal_strlit("and"); assert("and"@.len() != "tbnz"@.len()); lemma_words_differ("and", "tbnz"); }
        if k == 1 { assert(ARM64_LOGIC@[1] == "orr"); reveal_strlit("orr"); assert("orr"@.len() != "tbnz"@.len()); lemma_words_differ("orr", "tbnz"); }
        if k == 2 { assert(ARM64_LOGIC@[2] == "eor"); reveal_strlit("eor"); assert("eor"@.len() != "tbnz"@.len()); lemma_words_differ("eor", "tbnz"); }
        if k == 3 { assert(ARM64_LOGIC@[3] == "mvn"); reveal_strlit("mvn"); assert("mvn"@.len() != "tbnz"@.len()); lemma_words_differ("mvn", "tbnz"); }
        if k == 4 { assert(ARM64_LOGIC@[4] == "bic"); reveal_strlit("bic"); assert("bic"@.len() != "tbnz"@.len()); lemma_words_differ("bic", "tbnz"); }
        if k == 5 { assert(ARM64_LOGIC@[5] == "lsl"); reveal_strlit("lsl"); assert("lsl"@.len() != "tbnz"@.len()); lemma_words_differ("lsl", "tbnz"); }
        if k == 6 { assert(ARM64_LOGIC@[6] == "lsr"); reveal_strlit("lsr"); assert("lsr"@.len() != "tbnz"@.len()); lemma_words_differ("lsr", "tbnz"); }
        if k == 7 { assert(ARM64_LOGIC@[7] == "asr"); reveal_strlit("asr"); assert("asr"@.len() != "tbnz"@.len()); lemma_words_differ("asr", "tbnz"); }
        if k == 8 { assert(ARM64_LOGIC@[8] == "ror"); reveal_strlit("ror"); assert("ror"@.len() != "tbnz"@.len()); lemma_words_differ("ror", "tbnz"); }
    }
}

proof fn lemma_arm64_controlflow_words(m: Seq<u8>)
    requires
        m == "b".spec_bytes() || m == "bl".spec_bytes() || m == "br".spec_bytes() || m == "blr".spec_bytes() || m == "ret".spec_bytes() || m == "cbz".spec_bytes() || m == "cbnz".spec_bytes() || m == "tbz".spec_bytes() || m == "tbnz".spec_bytes(),
    ensures
        crate::instruction::spec_categorize_arm64(m) == Category::ControlFlow,
        crate::instruction::spec_categorize(m, ArchKind::Arm64) == Category::ControlFlow,
        crate::instruction::listing_counts(seq![Some(m)], ArchKind::Arm64) == (1int, 0int, 0int, 0int, 1int, 0int),
{
    if m == "b".spec_bytes() {
        lemma_arm64_word_b();
        reveal_strlit("b");
        lemma_lower_fixed("b");
    }
    if m == "bl".spec_bytes() {
        lemma_arm64_word_bl();
        reveal_strlit("bl");
        lemma_lower_fixed("bl");
    }
    if m == "br".spec_bytes() {
        lemma_arm64_word_br();
        reveal_strlit("br");
        lemma_lower_fixed("br");
    }
    if m == "blr".spec_bytes() {
        lemma_arm64_word_blr();
        reveal_strlit("blr");
        lemma_lower_fixed("blr");
    }
    if m == "ret".spec_bytes() {
        lemma_arm64_word_ret();
        reveal_strlit("ret");
        lemma_lower_fixed("ret");
    }
    if m == "cbz".spec_bytes() {
        lemma_arm64_word_cbz();
        reveal_strlit("cbz");
        lemma_lower_fixed("cbz");
    }
    if m == "cbnz".spec_bytes() {
        lemma_arm64_word_cbnz();
        reveal_strlit("cbnz");
        lemma_lower_fixed("cbnz");
    }
    if m == "tbz".spec_bytes() {
        lemma_arm64_word_tbz();
        reveal_strlit("tbz");
        lemma_lower_fixed("tbz");
    }
    if m == "tbnz".spec_bytes() {
        lemma_arm64_word_tbnz();
        reveal_strlit("tbnz");
        lemma_lower_fixed("tbnz");
    }
    assert(seq![Some(m)].drop_last() =~= Seq::<Option<Seq<u8>>>::empty());
    assert(seq![Some(m)].last() == Some(m));
    assert(crate::instruction::listing_counts(Seq::<Option<Seq<u8>>>::empty(), ArchKind::Arm64) == (0int, 0int, 0int, 0int, 0int, 0int));
}

proof fn lemma_arm64_word_svc()
    ensures
        crate::instruction::spec_categorize_arm64("svc".spec_bytes()) == Category::System,
{
    reveal_strlit("svc");
    lemma_not_conditional("svc");
    assert(ARM64_SYSTEM@[0] == "svc");
    assert forall|k: int| 0 <= k < 16 implies #[trigger] ARM64_MOV@[k].spec_bytes() != "svc".spec_bytes() by {
        if k == 0 { assert(ARM64_MOV@[0] == "mov"); reveal_strlit("mov"); assert("mov"@[0] != "svc"@[0]); lemma_words_differ("mov", "svc"); }
        if k == 1 { assert(ARM64_MOV@[1] == "movz"); reveal_strlit("movz"); assert("movz"@.len() != "svc"@.len()); lemma_words_differ("movz", "svc"); }
        if k == 2 { assert(ARM64_MOV@[2] == "movn"); reveal_strlit("movn"); assert("movn"@.len() != "svc"@.len()); lemma_words_differ("movn", "svc"); }
        if k == 3 { assert(ARM64_MOV@[3] == "movk"); reveal_strlit("movk"); assert("movk"@.len() != "svc"@.len()); lemma_words_differ("movk", "svc"); }
        if k == 4 { assert(ARM64_MOV@[4] == "ldr"); reveal_strlit("ldr"); assert("ldr"@[0] != "svc"@[0]); lemma_words_differ("ldr", "svc"); }
        if k == 5 { assert(ARM64_MOV@[5] == "str"); reveal_strlit("str"); assert("str"@[1] != "svc"@[1]); lemma_words_differ("str", "svc"); }
        if k == 6 { assert(ARM64_MOV@[6] == "ldp"); reveal_strlit("ldp"); assert("ldp"@[0] != "svc"@[0]); lemma_words_differ("ldp", "svc"); }
        if k == 7 { assert(ARM64_MOV@[7] == "stp"); reveal_strlit("stp"); assert("stp"@[1] != "svc"@[1]); lemma_words_differ("stp", "svc"); }
        if k == 8 { assert(ARM64_MOV@[8] == "ldur"); reveal_strlit("ldur"); assert("ldur"@.len() != "svc"@.len()); lemma_words_differ("ldur", "svc"); }
        if k == 9 { assert(ARM64_MOV@[9] == "stur"); reveal_strlit("stur"); assert("stur"@.len() != "svc"@.len()); lemma_words_differ("stur", "svc"); }
        if k == 10 { assert(ARM64_MOV@[10] == "adr"); reveal_strlit("adr"); assert("adr"@[0] != "svc"@[0]); lemma_words_differ("adr", "svc"); }
        if k == 11 { assert(ARM64_MOV@[11] == "adrp"); reveal_strlit("adrp"); assert("adrp"@.len() != "svc"@.len()); lemma_words_differ("adrp", "svc"); }
        if k == 12 { assert(ARM64_MOV@[12] == "ldrb"); reveal_strlit("ldrb"); assert("ldrb"@.len() != "svc"@.len()); lemma_words_differ("ldrb", "svc"); }
        if k == 13 { assert(ARM64_MOV@[13] == "strb"); reveal_strlit("strb"); assert("strb"@.len() != "svc"@.len()); lemma_words_differ("strb", "svc"); }
        if k == 14 { assert(ARM64_MOV@[14] == "ldrh"); reveal_strlit("ldrh"); assert("ldrh"@.len() != "svc"@.len()); lemma_words_differ("ldrh", "svc"); }
        if k == 15 { assert(ARM64_MOV@[15] == "strh"); reveal_strlit("strh"); assert("strh"@.len() != "svc"@.len()); lemma_words_differ("strh", "svc"); }
    }
    assert forall|k: int| 0 <= k < 9 implies #[trigger] ARM64_ARITHMETIC@[k].spec_bytes() != "svc".spec_bytes() by {
        if k == 0 { assert(ARM64_ARITHMETIC@[0] == "add"); reveal_strlit("add"); assert("add"@[0] != "svc"@[0]); lemma_words_differ("add", "svc"); }
        if k == 1 { assert(ARM64_ARITHMETIC@[1] == "sub"); reveal_strlit("sub"); assert("sub"@[1] != "svc"@[1]); lemma_words_differ("sub", "svc"); }
        if k == 2 { assert(ARM64_ARITHMETIC@[2] == "mul"); reveal_strlit("mul"); assert("mul"@[0] != "svc"@[0]); lemma_words_differ("mul", "svc"); }
        if k == 3 { assert(ARM64_ARITHMETIC@[3] == "madd"); reveal_strlit("madd"); assert("madd"@.len() != "svc"@.len()); lemma_words_differ("madd", "svc"); }
        if k == 4 { assert(ARM64_ARITHMETIC@[4] == "msub"); reveal_strlit("msub"); assert("msub"@.len() != "svc"@.len()); lemma_words_differ("msub", "svc"); }
        if k == 5 { assert(ARM64_ARITHMETIC@[5] == "sdiv"); reveal_strlit("sdiv"); assert("sdiv"@.len() != "svc"@.len()); lemma_words_differ("sdiv", "svc"); }
        if k == 6 { assert(ARM64_ARITHMETIC@[6] == "udiv"); reveal_strlit("udiv"); assert("udiv"@.len() != "svc"@.len()); lemma_words_differ("udiv", "svc"); }
        if k == 7 { assert(ARM64_ARITHMETIC@[7] == "adc"); reveal_strlit("adc"); assert("adc"@[0] != "svc"@[0]); lemma_words_differ("adc", "svc"); }
        if k == 8 { assert(ARM64_ARITHMETIC@[8] == "sbc"); reveal_strlit("sbc"); assert("sbc"@[1] != "svc"@[1]); lemma_words_differ("sbc", "svc"); }
    }
    assert forall|k: int| 0 <= k < 9 implies #[trigger] ARM64_LOGIC@[k].spec_bytes() != "svc".spec_bytes() by {
        if k == 0 { assert(ARM64_LOGIC@[0] == "and"); reveal_strlit("and"); assert("and"@[0] != "svc"@[0]); lemma_words_differ("and", "svc"); }
        if k == 1 { assert(ARM64_LOGIC@[1] == "orr"); reveal_strlit("orr"); assert("orr"@[0] != "svc"@[0]); lemma_words_differ("orr", "svc"); }
        if k == 2 { assert(ARM64_LOGIC@[2] == "eor"); reveal_strlit("eor"); assert("eor"@[0] != "svc"@[0]); lemma_words_differ("eor", "svc"); }
        if k == 3 { assert(ARM64_LOGIC@[3] == "mvn"); reveal_strlit("mvn"); assert("mvn"@[0] != "svc"@[0]); lemma_words_differ("mvn", "svc"); }
        if k == 4 { assert(ARM64_LOGIC@[4] == "bic"); reveal_strlit("bic"); assert("bic"@[0] != "svc"@[0]); lemma_words_differ("bic", "svc"); }
        if k == 5 { assert(ARM64_LOGIC@[5] == "lsl"); reveal_strlit("lsl"); assert("lsl"@[0] != "svc"@[0]); lemma_words_differ("lsl", "svc"); }
        if k == 6 { assert(ARM64_LOGIC@[6] == "lsr"); reveal_strlit("lsr"); assert("lsr"@[0] != "svc"@[0]); lemma_words_differ("lsr", "svc"); }
        if k == 7 { assert(ARM64_LOGIC@[7] == "asr"); reveal_strlit("asr"); assert("asr"@[0] != "svc"@[0]); lemma_words_differ("asr", "svc"); }
        if k == 8 { assert(ARM64_LOGIC@[8] == "ror"); reveal_strlit("ror"); assert("ror"@[0] != "svc"@[0]); lemma_words_differ("ror", "svc"); }
    }
    assert forall|k: int| 0 <= k < 9 implies #[trigger] ARM64_CONTROL@[k].spec_bytes() != "svc".spec_bytes() by {
        if k == 0 { assert(ARM64_CONTROL@[0] == "b"); reveal_strlit("b"); assert("b"@.len() != "svc"@.len()); lemma_words_differ("b", "svc"); }
        if k == 1 { assert(ARM64_CONTROL@[1] == "bl"); reveal_strlit("bl"); assert("bl"@.len() != "svc"@.len()); lemma_words_differ("bl", "svc"); }
        if k == 2 { assert(ARM64_CONTROL@[2] == "br"); reveal_strlit("br"); assert("br"@.len() != "svc"@.len()); lemma_words_differ("br", "svc"); }
        if k == 3 { assert(ARM64_CONTROL@[3] == "blr"); reveal_strlit("blr"); assert("blr"@[0] != "svc"@[0]); lemma_words_differ("blr", "svc"); }
        if k == 4 { assert(ARM64_CONTROL@[4] == "ret"); reveal_strlit("ret"); assert("ret"@[0] != "svc"@[0]); lemma_words_differ("ret", "svc"); }
        if k == 5 { assert(ARM64_CONTROL@[5] == "cbz"); reveal_strlit("cbz"); assert("cbz"@[0] != "svc"@[0]); lemma_words_differ("cbz", "svc"); }
        if k == 6 { assert(ARM64_CONTROL@[6] == "cbnz"); reveal_strlit("cbnz"); assert("cbnz"@.len() != "svc"@.len()); lemma_words_differ("cbnz", "svc"); }
        if k == 7 { assert(ARM64_CONTROL@[7] == "tbz"); reveal_strlit("tbz"); assert("tbz"@[0] != "svc"@[0]); lemma_words_differ("tbz", "svc"); }
        if k == 8 { assert(ARM64_CONTROL@[8] == "tbnz"); reveal_strlit("tbnz"); assert("tbnz"@.len() != "svc"@.len()); lemma_words_differ("tbnz", "svc"); }
    }
}

proof fn lemma_arm64_word_hvc()
    ensures
        crate::instruction::spec_categorize_arm64("hvc".spec_bytes()) == Category::System,
{
    reveal_strlit("hvc");
    lemma_not_conditional("hvc");
    assert(ARM64_SYSTEM@[1] == "hvc");
    assert forall|k: int| 0 <= k < 16 implies #[trigger] ARM64_MOV@[k].spec_bytes() != "hvc".spec_bytes() by {
        if k == 0 { assert(ARM64_MOV@[0] == "mov"); reveal_strlit("mov"); assert("mov"@[0] != "hvc"@[0]); lemma_words_differ("mov", "hvc"); }
        if k == 1 { assert(ARM64_MOV@[1] == "movz"); reveal_strlit("movz"); assert("movz"@.len() != "hvc"@.len()); lemma_words_differ("movz", "hvc"); }
        if k == 2 { assert(ARM64_MOV@[2] == "movn"); reveal_strlit("movn"); assert("movn"@.len() != "hvc"@.len()); lemma_words_differ("movn", "hvc"); }
        if k == 3 { assert(ARM64_MOV@[3] == "movk"); reveal_strlit("movk"); assert("movk"@.len() != "hvc"@.len()); lemma_words_differ("movk", "hvc"); }
        if k == 4 { assert(ARM64_MOV@[4] == "ldr"); reveal_strlit("ldr"); assert("ldr"@[0] != "hvc"@[0]); lemma_words_differ("ldr", "hvc"); }
        if k == 5 { assert(ARM64_MOV@[5] == "str"); reveal_strlit("str"); assert("str"@[0] != "hvc"@[0]); lemma_words_differ("str", "hvc"); }
        if k == 6 { assert(ARM64_MOV@[6] == "ldp"); reveal_strlit("ldp"); assert("ldp"@[0] != "hvc"@[0]); lemma_words_differ("ldp", "hvc"); }
        if k == 7 { assert(ARM64_MOV@[7] == "stp"); reveal_strlit("stp"); assert("stp"@[0] != "hvc"@[0]); lemma_words_differ("stp", "hvc"); }
        if k == 8 { assert(ARM64_MOV@[8] == "ldur"); reveal_strlit("ldur"); assert("ldur"@.len() != "hvc"@.len()); lemma_words_differ("ldur", "hvc"); }
        if k == 9 { assert(ARM64_MOV@[9] == "stur"); reveal_strlit("stur"); assert("stur"@.len() != "hvc"@.len()); lemma_words_differ("stur", "hvc"); }
        if k == 10 { assert(ARM64_MOV@[10] == "adr"); reveal_strlit("adr"); assert("adr"@[0] != "hvc"@[0]); lemma_words_differ("adr", "hvc"); }
        if k == 11 { assert(ARM64_MOV@[11] == "adrp"); reveal_strlit("adrp"); assert("adrp"@.len() != "hvc"@.len()); lemma_words_differ("adrp", "hvc"); }
        if k == 12 { assert(ARM64_MOV@[12] == "ldrb"); reveal_strlit("ldrb"); assert("ldrb"@.len() != "hvc"@.len()); lemma_words_differ("ldrb", "hvc"); }
        if k == 13 { assert(ARM64_MOV@[13] == "strb"); reveal_strlit("strb"); assert("strb"@.len() != "hvc"@.len()); lemma_words_differ("strb", "hvc"); }
        if k == 14 { assert(ARM64_MOV@[14] == "ldrh"); reveal_strlit("ldrh"); assert("ldrh"@.len() != "hvc"@.len()); lemma_words_differ("ldrh", "hvc"); }
        if k == 15 { assert(ARM64_MOV@[15] == "strh"); reveal_strlit("strh"); assert("strh"@.len() != "hvc"@.len()); lemma_words_differ("strh", "hvc"); }
    }
    assert forall|k: int| 0 <= k < 9 implies #[trigger] ARM64_ARITHMETIC@[k].spec_bytes() != "hvc".spec_bytes() by {
        if k == 0 { assert(ARM64_ARITHMETIC@[0] == "add"); reveal_strlit("add"); assert("add"@[0] != "hvc"@[0]); lemma_words_differ("add", "hvc"); }
        if k == 1 { assert(ARM64_ARITHMETIC@[1] == "sub"); reveal_strlit("sub"); assert("sub"@[0] != "hvc"@[0]); lemma_words_differ("sub", "hvc"); }
        if k == 2 { assert(ARM64_ARITHMETIC@[2] == "mul"); reveal_strlit("mul"); assert("mul"@[0] != "hvc"@[0]); lemma_words_differ("mul", "hvc"); }
        if k == 3 { assert(ARM64_ARITHMETIC@[3] == "madd"); reveal_strlit("madd"); assert("madd"@.len() != "hvc"@.len()); lemma_words_differ("madd", "hvc"); }
        if k == 4 { assert(ARM64_ARITHMETIC@[4] == "msub"); reveal_strlit("msub"); assert("msub"@.len() != "hvc"@.len()); lemma_words_differ("msub", "hvc"); }
        if k == 5 { assert(ARM64_ARITHMETIC@[5] == "sdiv"); reveal_strlit("sdiv"); assert("sdiv"@.len() != "hvc"@.len()); lemma_words_differ("sdiv", "hvc"); }
        if k == 6 { assert(ARM64_ARITHMETIC@[6] == "udiv"); reveal_strlit("udiv"); assert("udiv"@.len() != "hvc"@.len()); lemma_words_differ("udiv", "hvc"); }
        if k == 7 { assert(ARM64_ARITHMETIC@[7] == "adc"); reveal_strlit("adc"); assert("adc"@[0] != "hvc"@[0]); lemma_words_differ("adc", "hvc"); }
        if k == 8 { assert(ARM64_ARITHMETIC@[8] == "sbc"); reveal_strlit("sbc"); assert("sbc"@[0] != "hvc"@[0]); lemma_words_differ("sbc", "hvc"); }
    }
    assert forall|k: int| 0 <= k < 9 implies #[trigger] ARM64_LOGIC@[k].spec_bytes() != "hvc".spec_bytes() by {
        if k == 0 { assert(ARM64_LOGIC@[0] == "and"); reveal_strlit("and"); assert("and"@[0] != "hvc"@[0]); lemma_words_differ("and", "hvc"); }
        if k == 1 { assert(ARM64_LOGIC@[1] == "orr"); reveal_strlit("orr"); assert("orr"@[0] != "hvc"@[0]); lemma_words_differ("orr", "hvc"); }
        if k == 2 { assert(ARM64_LOGIC@[2] == "eor"); reveal_strlit("eor"); assert("eor"@[0] != "hvc"@[0]); lemma_words_differ("eor", "hvc"); }
        if k == 3 { assert(ARM64_LOGIC@[3] == "mvn"); reveal_strlit("mvn"); assert("mvn"@[0] != "hvc"@[0]); lemma_words_differ("mvn", "hvc"); }
        if k == 4 { assert(ARM64_LOGIC@[4] == "bic"); reveal_strlit("bic"); assert("bic"@[0] != "hvc"@[0]); lemma_words_differ("bic", "hvc"); }
        if k == 5 { assert(ARM64_LOGIC@[5] == "lsl"); reveal_strlit("lsl"); assert("lsl"@[0] != "hvc"@[0]); lemma_words_differ("lsl", "hvc"); }
        if k == 6 { assert(ARM64_LOGIC@[6] == "lsr"); reveal_strlit("lsr"); assert("lsr"@[0] != "hvc"@[0]); lemma_words_differ("lsr", "hvc"); }
        if k == 7 { assert(ARM64_LOGIC@[7] == "asr"); reveal_strlit("asr"); assert("asr"@[0] != "hvc"@[0]); lemma_words_differ("asr", "hvc"); }
        if k == 8 { assert(ARM64_LOGIC@[8] == "ror"); reveal_strlit("ror"); assert("ror"@[0] != "hvc"@[0]); lemma_words_differ("ror", "hvc"); }
    }
    assert forall|k: int| 0 <= k < 9 implies #[trigger] ARM64_CONTROL@[k].spec_bytes() != "hvc".spec_bytes() by {
        if k == 0 { assert(ARM64_CONTROL@[0] == "b"); reveal_strlit("b"); assert("b"@.len() != "hvc"@.len()); lemma_words_differ("b", "hvc"); }
        if k == 1 { assert(ARM64_CONTROL@[1] == "bl"); reveal_strlit("bl"); assert("bl"@.len() != "hvc"@.len()); lemma_words_differ("bl", "hvc"); }
        if k == 2 { assert(ARM64_CONTROL@[2] == "br"); reveal_strlit("br"); assert("br"@.len() != "hvc"@.len()); lemma_words_differ("br", "hvc"); }
        if k == 3 { assert(ARM64_CONTROL@[3] == "blr"); reveal_strlit("blr"); assert("blr"@[0] != "hvc"@[0]); lemma_words_differ("blr", "hvc"); }
        if k == 4 { assert(ARM64_CONTROL@[4] == "ret"); reveal_strlit("ret"); assert("ret"@[0] != "hvc"@[0]); lemma_words_differ("ret", "hvc"); }
        if k == 5 { assert(ARM64_CONTROL@[5] == "cbz"); reveal_strlit("cbz"); assert("cbz"@[0] != "hvc"@[0]); lemma_words_differ("cbz", "hvc"); }
        if k == 6 { assert(ARM64_CONTROL@[6] == "cbnz"); reveal_strlit("cbnz"); assert("cbnz"@.len() != "hvc"@.len()); lemma_words_differ("cbnz", "hvc"); }
        if k == 7 { assert(ARM64_CONTROL@[7] == "tbz"); reveal_strlit("tbz"); assert("tbz"@[0] != "hvc"@[0]); lemma_words_differ("tbz", "hvc"); }
        if k == 8 { assert(ARM64_CONTROL@[8] == "tbnz"); reveal_strlit("tbnz"); assert("tbnz"@.len() != "hvc"@.len()); lemma_words_differ("tbnz", "hvc"); }
    }
}

proof fn lemma_arm64_word_smc()
    ensures
        crate::instruction::spec_categorize_arm64("smc".spec_bytes()) == Category::System,
{
    reveal_strlit("smc");
    lemma_not_conditional("smc");
    assert(ARM64_SYSTEM@[2] == "smc");
    assert forall|k: int| 0 <= k < 16 implies #[trigger] ARM64_MOV@[k].spec_bytes() != "smc".spec_bytes() by {
        if k == 0 { assert(ARM64_MOV@[0] == "mov"); reveal_strlit("mov"); assert("mov"@[0] != "smc"@[0]); lemma_words_differ("mov", "smc"); }
        if k == 1 { assert(ARM64_MOV@[1] == "movz"); reveal_strlit("movz"); assert("movz"@.len() != "smc"@.len()); lemma_words_differ("movz", "smc"); }
        if k == 2 { assert(ARM64_MOV@[2] == "movn"); reveal_strlit("movn"); assert("movn"@.len() != "smc"@.len()); lemma_words_differ("movn", "smc"); }
        if k == 3 { assert(ARM64_MOV@[3] == "movk"); reveal_strlit("movk"); assert("movk"@.len() != "smc"@.len()); lemma_words_differ("movk", "smc"); }
        if k == 4 { assert(ARM64_MOV@[4] == "ldr"); reveal_strlit("ldr"); assert("ldr"@[0] != "smc"@[0]); lemma_words_differ("ldr", "smc"); }
        if k == 5 { assert(ARM64_MOV@[5] == "str"); reveal_strlit("str"); assert("str"@[1] != "smc"@[1]); lemma_words_differ("str", "smc"); }
        if k == 6 { assert(ARM64_MOV@[6] == "ldp"); reveal_strlit("ldp"); assert("ldp"@[0] != "smc"@[0]); lemma_words_differ("ldp", "smc"); }
        if k == 7 { assert(ARM64_MOV@[7] == "stp"); reveal_strlit("stp"); assert("stp"@[1] != "smc"@[1]); lemma_words_differ("stp", "smc"); }
        if k == 8 { assert(ARM64_MOV@[8] == "ldur"); reveal_strlit("ldur"); assert("ldur"@.len() != "smc"@.len()); lemma_words_differ("ldur", "smc"); }
        if k == 9 { assert(ARM64_MOV@[9] == "stur"); reveal_strlit("stur"); assert("stur"@.len() != "smc"@.len()); lemma_words_differ("stur", "smc"); }
        if k == 10 { assert(ARM64_MOV@[10] == "adr"); reveal_strlit("adr"); assert("adr"@[0] != "smc"@[0]); lemma_words_differ("adr", "smc"); }
        if k == 11 { assert(ARM64_MOV@[11] == "adrp"); reveal_strlit("adrp"); assert("adrp"@.len() != "smc"@.len()); lemma_words_differ("adrp", "smc"); }
        if k == 12 { assert(ARM64_MOV@[12] == "ldrb"); reveal_strlit("ldrb"); assert("ldrb"@.len() != "smc"@.len()); lemma_words_differ("ldrb", "smc"); }
        if k == 13 { assert(ARM64_MOV@[13] == "strb"); reveal_strlit("strb"); assert("strb"@.len() != "smc"@.len()); lemma_words_differ("strb", "smc"); }
        if k == 14 { assert(ARM64_MOV@[14] == "ldrh"); reveal_strlit("ldrh"); assert("ldrh"@.len() != "smc"@.len()); lemma_words_differ("ldrh", "smc"); }
        if k == 15 { assert(ARM64_MOV@[15] == "strh"); reveal_strlit("strh"); assert("strh"@.len() != "smc"@.len()); lemma_words_differ("strh", "smc"); }
    }
    assert forall|k: int| 0 <= k < 9 implies #[trigger] ARM64_ARITHMETIC@[k].spec_bytes() != "smc".spec_bytes() by {
        if k == 0 { assert(ARM64_ARITHMETIC@[0] == "add"); reveal_strlit("add"); assert("add"@[0] != "smc"@[0]); lemma_words_differ("add", "smc"); }
        if k == 1 { assert(ARM64_ARITHMETIC@[1] == "sub"); reveal_strlit("sub"); assert("sub"@[1] != "smc"@[1]); lemma_words_differ("sub", "smc"); }
        if k == 2 { assert(ARM64_ARITHMETIC@[2] == "mul"); reveal_strlit("mul"); assert("mul"@[0] != "smc"@[0]); lemma_words_differ("mul", "smc"); }
        if k == 3 { assert(ARM64_ARITHMETIC@[3] == "madd"); reveal_strlit("madd"); assert("madd"@.len() != "smc"@.len()); lemma_words_differ("madd", "smc"); }
        if k == 4 { assert(ARM64_ARITHMETIC@[4] == "msub"); reveal_strlit("msub"); assert("msub"@.len() != "smc"@.len()); lemma_words_differ("msub", "smc"); }
        if k == 5 { assert(ARM64_ARITHMETIC@[5] == "sdiv"); reveal_strlit("sdiv"); assert("sdiv"@.len() != "smc"@.len()); lemma_words_differ("sdiv", "smc"); }
        if k == 6 { assert(ARM64_ARITHMETIC@[6] == "udiv"); reveal_strlit("udiv"); assert("udiv"@.len() != "smc"@.len()); lemma_words_differ("udiv", "smc"); }
        if k == 7 { assert(ARM64_ARITHMETIC@[7] == "adc"); reveal_strlit("adc"); assert("adc"@[0] != "smc"@[0]); lemma_words_differ("adc", "smc"); }
        if k == 8 { assert(ARM64_ARITHMETIC@[8] == "sbc"); reveal_strlit("sbc"); assert("sbc"@[1] != "smc"@[1]); lemma_words_differ("sbc", "smc"); }
    }
    assert forall|k: int| 0 <= k < 9 implies #[trigger] ARM64_LOGIC@[k].spec_bytes() != "smc".spec_bytes() by {
        if k == 0 { assert(ARM64_LOGIC@[0] == "and"); reveal_strlit("and"); assert("and"@[0] != "smc"@[0]); lemma_words_differ("and", "smc"); }
        if k == 1 { assert(ARM64_LOGIC@[1] == "orr"); reveal_strlit("orr"); assert("orr"@[0] != "smc"@[0]); lemma_words_differ("orr", "smc"); }
        if k == 2 { assert(ARM64_LOGIC@[2] == "eor"); reveal_strlit("eor"); assert("eor"@[0] != "smc"@[0]); lemma_words_differ("eor", "smc"); }
        if k == 3 { assert(ARM64_LOGIC@[3] == "mvn"); reveal_strlit("mvn"); assert("mvn"@[0] != "smc"@[0]); lemma_words_differ("mvn", "smc"); }
        if k == 4 { assert(ARM64_LOGIC@[4] == "bic"); reveal_strlit("bic"); assert("bic"@[0] != "smc"@[0]); lemma_words_differ("bic", "smc"); }
        if k == 5 { assert(ARM64_LOGIC@[5] == "lsl"); reveal_strlit("lsl"); assert("lsl"@[0] != "smc"@[0]); lemma_words_differ("lsl", "smc"); }
        if k == 6 { assert(ARM64_LOGIC@[6] == "lsr"); reveal_strlit("lsr"); assert("lsr"@[0] != "smc"@[0]); lemma_words_differ("lsr", "smc"); }
        if k == 7 { assert(ARM64_LOGIC@[7] == "asr"); reveal_strlit("asr"); assert("asr"@[0] != "smc"@[0]); lemma_words_differ("asr", "smc"); }
        if k == 8 { assert(ARM64_LOGIC@[8] == "ror"); reveal_strlit("ror"); assert("ror"@[0] != "smc"@[0]); lemma_words_differ("ror", "smc"); }
    }
    assert forall|k: int| 0 <= k < 9 implies #[trigger] ARM64_CONTROL@[k].spec_bytes() != "smc".spec_bytes() by {
        if k == 0 { assert(ARM64_CONTROL@[0] == "b"); reveal_strlit("b"); assert("b"@.len() != "smc"@.len()); lemma_words_differ("b", "smc"); }
        if k == 1 { assert(ARM64_CONTROL@[1] == "bl"); reveal_strlit("bl"); assert("bl"@.len() != "smc"@.len()); lemma_words_differ("bl", "smc"); }
        if k == 2 { assert(ARM64_CONTROL@[2] == "br"); reveal_strlit("br"); assert("br"@.len() != "smc"@.len()); lemma_words_differ("br", "smc"); }
        if k == 3 { assert(ARM64_CONTROL@[3] == "blr"); reveal_strlit("blr"); assert("blr"@[0] != "smc"@[0]); lemma_words_differ("blr", "smc"); }
        if k == 4 { assert(ARM64_CONTROL@[4] == "ret"); reveal_strlit("ret"); assert("ret"@[0] != "smc"@[0]); lemma_words_differ("ret", "smc"); }
        if k == 5 { assert(ARM64_CONTROL@[5] == "cbz"); reveal_strlit("cbz"); assert("cbz"@[0] != "smc"@[0]); lemma_words_differ("cbz", "smc"); }
        if k == 6 { assert(ARM64_CONTROL@[6] == "cbnz"); reveal_strlit("cbnz"); assert("cbnz"@.len() != "smc"@.len()); lemma_words_differ("cbnz", "smc"); }
        if k == 7 { assert(ARM64_CONTROL@[7] == "tbz"); reveal_strlit("tbz"); assert("tbz"@[0] != "smc"@[0]); lemma_words_differ("tbz", "smc"); }
        if k == 8 { assert(ARM64_CONTROL@[8] == "tbnz"); reveal_strlit("tbnz"); assert("tbnz"@.len() != "smc"@.len()); lemma_words_differ("tbnz", "smc"); }
    }
}

proof fn lemma_arm64_word_brk()
    ensures
        crate::instruction::spec_categorize_arm64("brk".spec_bytes()) == Category::System,
{
    reveal_strlit("brk");
    lemma_not_conditional("brk");
    assert(ARM64_SYSTEM@[3] == "brk");
    assert forall|k: int| 0 <= k < 16 implies #[trigger] ARM64_MOV@[k].spec_bytes() != "brk".spec_bytes() by {
        if k == 0 { assert(ARM64_MOV@[0] == "mov"); reveal_strlit("mov"); assert("mov"@[0] != "brk"@[0]); lemma_words_differ("mov", "brk"); }
        if k == 1 { assert(ARM64_MOV@[1] == "movz"); reveal_strlit("movz"); assert("movz"@.len() != "brk"@.len()); lemma_words_differ("movz", "brk"); }
        if k == 2 { assert(ARM64_MOV@[2] == "movn"); reveal_strlit("movn"); assert("movn"@.len() != "brk"@.len()); lemma_words_differ("movn", "brk"); }
        if k == 3 { assert(ARM64_MOV@[3] == "movk"); reveal_strlit("movk"); assert("movk"@.len() != "brk"@.len()); lemma_words_differ("movk", "brk"); }
        if k == 4 { assert(ARM64_MOV@[4] == "ldr"); reveal_strlit("ldr"); assert("ldr"@[0] != "brk"@[0]); lemma_words_differ("ldr", "brk"); }
        if k == 5 { assert(ARM64_MOV@[5] == "str"); reveal_strlit("str"); assert("str"@[0] != "brk"@[0]); lemma_words_differ("str", "brk"); }
        if k == 6 { assert(ARM64_MOV@[6] == "ldp"); reveal_strlit("ldp"); assert("ldp"@[0] != "brk"@[0]); lemma_words_differ("ldp", "brk"); }
        if k == 7 { assert(ARM64_MOV@[7] == "stp"); reveal_strlit("stp"); assert("stp"@[0] != "brk"@[0]); lemma_words_differ("stp", "brk"); }
        if k == 8 { assert(ARM64_MOV@[8] == "ldur"); reveal_strlit("ldur"); assert("ldur"@.len() != "brk"@.len()); lemma_words_differ("ldur", "brk"); }
        if k == 9 { assert(ARM64_MOV@[9] == "stur"); reveal_strlit("stur"); assert("stur"@.len() != "brk"@.len()); lemma_words_differ("stur", "brk"); }
        if k == 10 { assert(ARM64_MOV@[10] == "adr"); reveal_strlit("adr"); assert("adr"@[0] != "brk"@[0]); lemma_words_differ("adr", "brk"); }
        if k == 11 { assert(ARM64_MOV@[11] == "adrp"); reveal_strlit("adrp"); assert("adrp"@.len() != "brk"@.len()); lemma_words_differ("adrp", "brk"); }
        if k == 12 { assert(ARM64_MOV@[12] == "ldrb"); reveal_strlit("ldrb"); assert("ldrb"@.len() != "brk"@.len()); lemma_words_differ("ldrb", "brk"); }
        if k == 13 { assert(ARM64_MOV@[13] == "strb"); reveal_strlit("strb"); assert("strb"@.len() != "brk"@.len()); lemma_words_differ("strb", "brk"); }
        if k == 14 { assert(ARM64_MOV@[14] == "ldrh"); reveal_strlit("ldrh"); assert("ldrh"@.len() != "brk"@.len()); lemma_words_differ("ldrh", "brk"); }
        if k == 15 { assert(ARM64_MOV@[15] == "strh"); reveal_strlit("strh"); assert("strh"@.len() != "brk"@.len()); lemma_words_differ("strh", "brk"); }
    }
    assert forall|k: int| 0 <= k < 9 implies #[trigger] ARM64_ARITHMETIC@[k].spec_bytes() != "brk".spec_bytes() by {
        if k == 0 { assert(ARM64_ARITHMETIC@[0] == "add"); reveal_strlit("add"); assert("add"@[0] != "brk"@[0]); lemma_words_differ("add", "brk"); }
        if k == 1 { assert(ARM64_ARITHMETIC@[1] == "sub"); reveal_strlit("sub"); assert("sub"@[0] != "brk"@[0]); lemma_words_differ("sub", "brk"); }
        if k == 2 { assert(ARM64_ARITHMETIC@[2] == "mul"); reveal_strlit("mul"); assert("mul"@[0] != "brk"@[0]); lemma_words_differ("mul", "brk"); }
        if k == 3 { assert(ARM64_ARITHMETIC@[3] == "madd"); reveal_strlit("madd"); assert("madd"@.len() != "brk"@.len()); lemma_words_differ("madd", "brk"); }
        if k == 4 { assert(ARM64_ARITHMETIC@[4] == "msub"); reveal_strlit("msub"); assert("msub"@.len() != "brk"@.len()); lemma_words_differ("msub", "brk"); }
        if k == 5 { assert(ARM64_ARITHMETIC@[5] == "sdiv"); reveal_strlit("sdiv"); assert("sdiv"@.len() != "brk"@.len()); lemma_words_differ("sdiv", "brk"); }
        if k == 6 { assert(ARM64_ARITHMETIC@[6] == "udiv"); reveal_strlit("udiv"); assert("udiv"@.len() != "brk"@.len()); lemma_words_differ("udiv", "brk"); }
        if k == 7 { assert(ARM64_ARITHMETIC@[7] == "adc"); reveal_strlit("adc"); assert("adc"@[0] != "brk"@[0]); lemma_words_differ("adc", "brk"); }
        if k == 8 { assert(ARM64_ARITHMETIC@[8] == "sbc"); reveal_strlit("sbc"); assert("sbc"@[0] != "brk"@[0]); lemma_words_differ("sbc", "brk"); }
    }
    assert forall|k: int| 0 <= k < 9 implies #[trigger] ARM64_LOGIC@[k].spec_bytes() != "brk".spec_bytes() by {
        if k == 0 { assert(ARM64_LOGIC@[0] == "and"); reveal_strlit("and"); assert("and"@[0] != "brk"@[0]); lemma_words_differ("and", "brk"); }
        if k == 1 { assert(ARM64_LOGIC@[1] == "orr"); reveal_strlit("orr"); assert("orr"@[0] != "brk"@[0]); lemma_words_differ("orr", "brk"); }
        if k == 2 { assert(ARM64_LOGIC@[2] == "eor"); reveal_strlit("eor"); assert("eor"@[0] != "brk"@[0]); lemma_words_differ("eor", "brk"); }
        if k == 3 { assert(ARM64_LOGIC@[3] == "mvn"); reveal_strlit("mvn"); assert("mvn"@[0] != "brk"@[0]); lemma_words_differ("mvn", "brk"); }
        if k == 4 { assert(ARM64_LOGIC@[4] == "bic"); reveal_strlit("bic"); assert("bic"@[1] != "brk"@[1]); lemma_words_differ("bic", "brk"); }
        if k == 5 { assert(ARM64_LOGIC@[5] == "lsl"); reveal_strlit("lsl"); assert("lsl"@[0] != "brk"@[0]); lemma_words_differ("lsl", "brk"); }
        if k == 6 { assert(ARM64_LOGIC@[6] == "lsr"); reveal_strlit("lsr"); assert("lsr"@[0] != "brk"@[0]); lemma_words_differ("lsr", "brk"); }
        if k == 7 { assert(ARM64_LOGIC@[7] == "asr"); reveal_strlit("asr"); assert("asr"@[0] != "brk"@[0]); lemma_words_differ("asr", "brk"); }
        if k == 8 { assert(ARM64_LOGIC@[8] == "ror"); reveal_strlit("ror"); assert("ror"@[0] != "brk"@[0]); lemma_words_differ("ror", "brk"); }
    }
    assert forall|k: int| 0 <= k < 9 implies #[trigger] ARM64_CONTROL@[k].spec_bytes() != "brk".spec_bytes() by {
        if k == 0 { assert(ARM64_CONTROL@[0] == "b"); reveal_strlit("b"); assert("b"@.len() != "brk"@.len()); lemma_words_differ("b", "brk"); }
        if k == 1 { assert(ARM64_CONTROL@[1] == "bl"); reveal_strlit("bl"); assert("bl"@.len() != "brk"@.len()); lemma_words_differ("bl", "brk"); }
        if k == 2 { assert(ARM64_CONTROL@[2] == "br"); reveal_strlit("br"); assert("br"@.len() != "brk"@.len()); lemma_words_differ("br", "brk"); }
        if k == 3 { assert(ARM64_CONTROL@[3] == "blr"); reveal_strlit("blr"); assert("blr"@[1] != "brk"@[1]); lemma_words_differ("blr", "brk"); }
        if k == 4 { assert(ARM64_CONTROL@[4] == "ret"); reveal_strlit("ret"); assert("ret"@[0] != "brk"@[0]); lemma_words_differ("ret", "brk"); }
        if k == 5 { assert(ARM64_CONTROL@[5] == "cbz"); reveal_strlit("cbz"); assert("cbz"@[0] != "brk"@[0]); lemma_words_differ("cbz", "brk"); }
        if k == 6 { assert(ARM64_CONTROL@[6] == "cbnz"); reveal_strlit("cbnz"); assert("cbnz"@.len() != "brk"@.len()); lemma_words_differ("cbnz", "brk"); }
        if k == 7 { assert(ARM64_CONTROL@[7] == "tbz"); reveal_strlit("tbz"); assert("tbz"@[0] != "brk"@[0]); lemma_words_differ("tbz", "brk"); }
        if k == 8 { assert(ARM64_CONTROL@[8] == "tbnz"); reveal_strlit("tbnz"); assert("tbnz"@.len() != "brk"@.len()); lemma_words_differ("tbnz", "brk"); }
    }
}

proof fn lemma_arm64_system_words(m: Seq<u8>)
    requires
        m == "svc".spec_bytes() || m == "hvc".spec_bytes() || m == "smc".spec_bytes() || m == "brk".spec_bytes(),
    ensures
        crate::instruction::spec_categorize_arm64(m) == Category::System,
        crate::instruction::spec_categorize(m, ArchKind::Arm64) == Category::System,
        crate::instruction::listing_counts(seq![Some(m)], ArchKind::Arm64) == (1int, 0int, 0int, 0int, 0int, 1int),
{
    if m == "svc".spec_bytes() {
        lemma_arm64_word_svc();
        reveal_strlit("svc");
        lemma_lower_fixed("svc");
    }
    if m == "hvc".spec_bytes() {
        lemma_arm64_word_hvc();
        reveal_strlit("hvc");
        lemma_lower_fixed("hvc");
    }
    if m == "smc".spec_bytes() {
        lemma_arm64_word_smc();
        reveal_strlit("smc");
        lemma_lower_fixed("smc");
    }
    if m == "brk".spec_bytes() {
        lemma_arm64_word_brk();
        reveal_strlit("brk");
        lemma_lower_fixed("brk");
    }
    assert(seq![Some(m)].drop_last() =~= Seq::<Option<Seq<u8>>>::empty());
    assert(seq![Some(m)].last() == Some(m));
    assert(crate::instruction::listing_counts(Seq::<Option<Seq<u8>>>::empty(), ArchKind::Arm64) == (0int, 0int, 0int, 0int, 0int, 0int));
}

proof fn lemma_arm64_other_words(m: Seq<u8>)
    requires
        !(m == "adc".spec_bytes() || m == "add".spec_bytes() || m == "adr".spec_bytes() || m == "adrp".spec_bytes() || m == "and".spec_bytes() || m == "asr".spec_bytes() || m == "b".spec_bytes() || m == "bic".spec_bytes() || m == "bl".spec_bytes() || m == "blr".spec_bytes() || m == "br".spec_bytes() || m == "brk".spec_bytes() || m == "cbnz".spec_bytes() || m == "cbz".spec_bytes() || m == "eor".spec_bytes() || m == "hvc".spec_bytes() || m == "ldp".spec_bytes() || m == "ldr".spec_bytes() || m == "ldrb".spec_bytes() || m == "ldrh".spec_bytes() || m == "ldur".spec_bytes() || m == "lsl".spec_bytes() || m == "lsr".spec_bytes() || m == "madd".spec_bytes() || m == "mov".spec_bytes() || m == "movk".spec_bytes() || m == "movn".spec_bytes() || m == "movz".spec_bytes() || m == "msub".spec_bytes() || m == "mul".spec_bytes() || m == "mvn".spec_bytes() || m == "orr".spec_bytes() || m == "ret".spec_bytes() || m == "ror".spec_bytes() || m == "sbc".spec_bytes() || m == "sdiv".spec_bytes() || m == "smc".spec_bytes() || m == "stp".spec_bytes() || m == "str".spec_bytes() || m == "strb".spec_bytes() || m == "strh".spec_bytes() || m == "stur".spec_bytes() || m == "sub".spec_bytes() || m == "svc".spec_bytes() || m == "tbnz".spec_bytes() || m == "tbz".spec_bytes() || m == "udiv".spec_bytes()),
        !crate::instruction::is_conditional_branch(m),
    ensures
        crate::instruction::spec_categorize_arm64(m) == Category::Other,
{
    assert(!crate::instruction::listed(m, ARM64_MOV@)) by {
        if crate::instruction::listed(m, ARM64_MOV@) {
            let k = choose|k: int| 0 <= k < 16 && #[trigger] ARM64_MOV@[k].spec_bytes() == m;
            if k == 0 { assert(ARM64_MOV@[0] == "mov"); }
            if k == 1 { assert(ARM64_MOV@[1] == "movz"); }
            if k == 2 { assert(ARM64_MOV@[2] == "movn"); }
            if k == 3 { assert(ARM64_MOV@[3] == "movk"); }
            if k == 4 { assert(ARM64_MOV@[4] == "ldr"); }
            if k == 5 { assert(ARM64_MOV@[5] == "str"); }
            if k == 6 { assert(ARM64_MOV@[6] == "ldp"); }
            if k == 7 { assert(ARM64_MOV@[7] == "stp"); }
            if k == 8 { assert(ARM64_MOV@[8] == "ldur"); }
            if k == 9 { assert(ARM64_MOV@[9] == "stur"); }
            if k == 10 { assert(ARM64_MOV@[10] == "adr"); }
            if k == 11 { assert(ARM64_MOV@[11] == "adrp"); }
            if k == 12 { assert(ARM64_MOV@[12] == "ldrb"); }
            if k == 13 { assert(ARM64_MOV@[13] == "strb"); }
            if k == 14 { assert(ARM64_MOV@[14] == "ldrh"); }
            if k == 15 { assert(ARM64_MOV@[15] == "strh"); }
        }
    }
    assert(!crate::instruction::listed(m, ARM64_ARITHMETIC@)) by {
        if crate::instruction::listed(m, ARM64_ARITHMETIC@) {
            let k = choose|k: int| 0 <= k < 9 && #[trigger] ARM64_ARITHMETIC@[k].spec_bytes() == m;
            if k == 0 { assert(ARM64_ARITHMETIC@[0] == "add"); }
            if k == 1 { assert(ARM64_ARITHMETIC@[1] == "sub"); }
            if k == 2 { assert(ARM64_ARITHMETIC@[2] == "mul"); }
            if k == 3 { assert(ARM64_ARITHMETIC@[3] == "madd"); }
            if k == 4 { assert(ARM64_ARITHMETIC@[4] == "msub"); }
            if k == 5 { assert(ARM64_ARITHMETIC@[5] == "sdiv"); }
            if k == 6 { assert(ARM64_ARITHMETIC@[6] == "udiv"); }
            if k == 7 { assert(ARM64_ARITHMETIC@[7] == "adc"); }
            if k == 8 { assert(ARM64_ARITHMETIC@[8] == "sbc"); }
        }
    }
    assert(!crate::instruction::listed(m, ARM64_LOGIC@)) by {
        if crate::instruction::listed(m, ARM64_LOGIC@) {
            let k = choose|k: int| 0 <= k < 9 && #[trigger] ARM64_LOGIC@[k].spec_bytes() == m;
            if k == 0 { assert(ARM64_LOGIC@[0] == "and"); }
            if k == 1 { assert(ARM64_LOGIC@[1] == "orr"); }
            if k == 2 { assert(ARM64_LOGIC@[2] == "eor"); }
            if k == 3 { assert(ARM64_LOGIC@[3] == "mvn"); }
            if k == 4 { assert(ARM64_LOGIC@[4] == "bic"); }
            if k == 5 { assert(ARM64_LOGIC@[5] == "lsl"); }
            if k == 6 { assert(ARM64_LOGIC@[6] == "lsr"); }
            if k == 7 { assert(ARM64_LOGIC@[7] == "asr"); }
            if k == 8 { assert(ARM64_LOGIC@[8] == "ror"); }
        }
    }
    assert(!crate::instruction::listed(m, ARM64_CONTROL@)) by {
        if crate::instruction::listed(m, ARM64_CONTROL@) {
            let k = choose|k: int| 0 <= k < 9 && #[trigger] ARM64_CONTROL@[k].spec_bytes() == m;
            if k == 0 { assert(ARM64_CONTROL@[0] == "b"); }
            if k == 1 { assert(ARM64_CONTROL@[1] == "bl"); }
            if k == 2 { assert(ARM64_CONTROL@[2] == "br"); }
            if k == 3 { assert(ARM64_CONTROL@[3] == "blr"); }
            if k == 4 { assert(ARM64_CONTROL@[4] == "ret"); }
            if k == 5 { assert(ARM64_CONTROL@[5] == "cbz"); }
            if k == 6 { assert(ARM64_CONTROL@[6] == "cbnz"); }
            if k == 7 { assert(ARM64_CONTROL@[7] == "tbz"); }
            if k == 8 { assert(ARM64_CONTROL@[8] == "tbnz"); }
        }
    }
    assert(!crate::instruction::listed(m, ARM64_SYSTEM@)) by {
        if crate::instruction::listed(m, ARM64_SYSTEM@) {
            let k = choose|k: int| 0 <= k < 4 && #[trigger] ARM64_SYSTEM@[k].spec_bytes() == m;
            if k == 0 { assert(ARM64_SYSTEM@[0] == "svc"); }
            if k == 1 { assert(ARM64_SYSTEM@[1] == "hvc"); }
            if k == 2 { assert(ARM64_SYSTEM@[2] == "smc"); }
            if k == 3 { assert(ARM64_SYSTEM@[3] == "brk"); }
        }
    }
}

/// On AArch64 the instruction families are exactly these mnemonics, and every
/// conditional branch `b.<cond>` is control flow; every other mnemonic is `Other`. A
/// listing of one lower-case mnemonic is counted once, in its family.
pub proof fn lemma_arm64_instruction_families(m: Seq<u8>)
    ensures
        m == "mov".spec_bytes() || m == "movz".spec_bytes() || m == "movn".spec_bytes() || m == "movk".spec_bytes() || m == "ldr".spec_bytes() || m == "str".spec_bytes() || m == "ldp".spec_bytes() || m == "stp".spec_bytes() || m == "ldur".spec_bytes() || m == "stur".spec_bytes() || m == "adr".spec_bytes() || m == "adrp".spec_bytes() || m == "ldrb".spec_bytes() || m == "strb".spec_bytes() || m == "ldrh".spec_bytes() || m == "strh".spec_bytes()
            ==> crate::instruction::spec_categorize(m, ArchKind::Arm64) == Category::Mov
                && crate::instruction::listing_counts(seq![Some(m)], ArchKind::Arm64) == (1int, 1int, 0int, 0int, 0int, 0int),
        m == "add".spec_bytes() || m == "sub".spec_bytes() || m == "mul".spec_bytes() || m == "madd".spec_bytes() || m == "msub".spec_bytes() || m == "sdiv".spec_bytes() || m == "udiv".spec_bytes() || m == "adc".spec_bytes() || m == "sbc".spec_bytes()
            ==> crate::instruction::spec_categorize(m, ArchKind::Arm64) == Category::Arithmetic
                && crate::instruction::listing_counts(seq![Some(m)], ArchKind::Arm64) == (1int, 0int, 1int, 0int, 0int, 0int),
        m == "and".spec_bytes() || m == "orr".spec_bytes() || m == "eor".spec_bytes() || m == "mvn".spec_bytes() || m == "bic".spec_bytes() || m == "lsl".spec_bytes() || m == "lsr".spec_bytes() || m == "asr".spec_bytes() || m == "ror".spec_bytes()
            ==> crate::instruction::spec_categorize(m, ArchKind::Arm64) == Category::Logic
                && crate::instruction::listing_counts(seq![Some(m)], ArchKind::Arm64) == (1int, 0int, 0int, 1int, 0int, 0int),
        m == "b".spec_bytes() || m == "bl".spec_bytes() || m == "br".spec_bytes() || m == "blr".spec_bytes() || m == "ret".spec_bytes() || m == "cbz".spec_bytes() || m == "cbnz".spec_bytes() || m == "tbz".spec_bytes() || m == "tbnz".spec_bytes()
            ==> crate::instruction::spec_categorize(m, ArchKind::Arm64) == Category::ControlFlow
                && crate::instruction::listing_counts(seq![Some(m)], ArchKind::Arm64) == (1int, 0int, 0int, 0int, 1int, 0int),
        m == "svc".spec_bytes() || m == "hvc".spec_bytes() || m == "smc".spec_bytes() || m == "brk".spec_bytes()
            ==> crate::instruction::spec_categorize(m, ArchKind::Arm64) == Category::System
                && crate::instruction::listing_counts(seq![Some(m)], ArchKind::Arm64) == (1int, 0int, 0int, 0int, 0int, 1int),
        crate::instruction::is_conditional_branch(m) ==> crate::instruction::spec_categorize(m, ArchKind::Arm64) == Category::ControlFlow,
        !crate::instruction::is_conditional_branch(m) && !(m == "adc".spec_bytes() || m == "add".spec_bytes() || m == "adr".spec_bytes() || m == "adrp".spec_bytes() || m == "and".spec_bytes() || m == "asr".spec_bytes() || m == "b".spec_bytes() || m == "bic".spec_bytes() || m == "bl".spec_bytes() || m == "blr".spec_bytes() || m == "br".spec_bytes() || m == "brk".spec_bytes() || m == "cbnz".spec_bytes() || m == "cbz".spec_bytes() || m == "eor".spec_bytes() || m == "hvc".spec_bytes() || m == "ldp".spec_bytes() || m == "ldr".spec_bytes() || m == "ldrb".spec_bytes() || m == "ldrh".spec_bytes() || m == "ldur".spec_bytes() || m == "lsl".spec_bytes() || m == "lsr".spec_bytes() || m == "madd".spec_bytes() || m == "mov".spec_bytes() || m == "movk".spec_bytes() || m == "movn".spec_bytes() || m == "movz".spec_bytes() || m == "msub".spec_bytes() || m == "mul".spec_bytes() || m == "mvn".spec_bytes() || m == "orr".spec_bytes() || m == "ret".spec_bytes() || m == "ror".spec_bytes() || m == "sbc".spec_bytes() || m == "sdiv".spec_bytes() || m == "smc".spec_bytes() || m == "stp".spec_bytes() || m == "str".spec_bytes() || m == "strb".spec_bytes() || m == "strh".spec_bytes() || m == "stur".spec_bytes() || m == "sub".spec_bytes() || m == "svc".spec_bytes() || m == "tbnz".spec_bytes() || m == "tbz".spec_bytes() || m == "udiv".spec_bytes())
            ==> crate::instruction::spec_categorize(m, ArchKind::Arm64) == Category::Other,
{
    if m == "mov".spec_bytes() || m == "movz".spec_bytes() || m == "movn".spec_bytes() || m == "movk".spec_bytes() || m == "ldr".spec_bytes() || m == "str".spec_bytes() || m == "ldp".spec_bytes() || m == "stp".spec_bytes() || m == "ldur".spec_bytes() || m == "stur".spec_bytes() || m == "adr".spec_bytes() || m == "adrp".spec_bytes() || m == "ldrb".spec_bytes() || m == "strb".spec_bytes() || m == "ldrh".spec_bytes() || m == "strh".spec_bytes() {
        lemma_arm64_mov_words(m);
    }
    if m == "add".spec_bytes() || m == "sub".spec_bytes() || m == "mul".spec_bytes() || m == "madd".spec_bytes() || m == "msub".spec_bytes() || m == "sdiv".spec_bytes() || m == "udiv".spec_bytes() || m == "adc".spec_bytes() || m == "sbc".spec_bytes() {
        lemma_arm64_arithmetic_words(m);
    }
    if m == "and".spec_bytes() || m == "orr".spec_bytes() || m == "eor".spec_bytes() || m == "mvn".spec_bytes() || m == "bic".spec_bytes() || m == "lsl".spec_bytes() || m == "lsr".spec_bytes() || m == "asr".spec_bytes() || m == "ror".spec_bytes() {
        lemma_arm64_logic_words(m);
    }
    if m == "b".spec_bytes() || m == "bl".spec_bytes() || m == "br".spec_bytes() || m == "blr".spec_bytes() || m == "ret".spec_bytes() || m == "cbz".spec_bytes() || m == "cbnz".spec_bytes() || m == "tbz".spec_bytes() || m == "tbnz".spec_bytes() {
        lemma_arm64_controlflow_words(m);
    }
    if m == "svc".spec_bytes() || m == "hvc".spec_bytes() || m == "smc".spec_bytes() || m == "brk".spec_bytes() {
        lemma_arm64_system_words(m);
    }
    if !(m == "adc".spec_bytes() || m == "add".spec_bytes() || m == "adr".spec_bytes() || m == "adrp".spec_bytes() || m == "and".spec_bytes() || m == "asr".spec_bytes() || m == "b".spec_bytes() || m == "bic".spec_bytes() || m == "bl".spec_bytes() || m == "blr".spec_bytes() || m == "br".spec_bytes() || m == "brk".spec_bytes() || m == "cbnz".spec_bytes() || m == "cbz".spec_bytes() || m == "eor".spec_bytes() || m == "hvc".spec_bytes() || m == "ldp".spec_bytes() || m == "ldr".spec_bytes() || m == "ldrb".spec_bytes() || m == "ldrh".spec_bytes() || m == "ldur".spec_bytes() || m == "lsl".spec_bytes() || m == "lsr".spec_bytes() || m == "madd".spec_bytes() || m == "mov".spec_bytes() || m == "movk".spec_bytes() || m == "movn".spec_bytes() || m == "movz".spec_bytes() || m == "msub".spec_bytes() || m == "mul".spec_bytes() || m == "mvn".spec_bytes() || m == "orr".spec_bytes() || m == "ret".spec_bytes() || m == "ror".spec_bytes() || m == "sbc".spec_bytes() || m == "sdiv".spec_bytes() || m == "smc".spec_bytes() || m == "stp".spec_bytes() || m == "str".spec_bytes() || m == "strb".spec_bytes() || m == "strh".spec_bytes() || m == "stur".spec_bytes() || m == "sub".spec_bytes() || m == "svc".spec_bytes() || m == "tbnz".spec_bytes() || m == "tbz".spec_bytes() || m == "udiv".spec_bytes()) {
        if !crate::instruction::is_conditional_branch(m) {
            lemma_arm64_other_words(m);
        }
    }
}

} // verus!
