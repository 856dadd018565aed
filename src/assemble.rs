use vstd::prelude::*;
use vstd::string::*;

verus! {

/// The decimal digits of `n`, most significant first.
pub open spec fn decimal(n: nat) -> Seq<char>
    decreases n,
{
    if n < 10 {
        seq!["0123456789"@[n as int]]
    } else {
        decimal(n / 10) + seq!["0123456789"@[(n % 10) as int]]
    }
}

/// `digits` with zeros in front, up to four characters.
pub open spec fn pad4(digits: Seq<char>) -> Seq<char> {
    if digits.len() < 4 {
        Seq::new((4 - digits.len()) as nat, |_i: int| '0') + digits
    } else {
        digits
    }
}

/// How a message starts when it mentions the bot named `name`: `@name`,
/// followed by `#` and the four-digit discriminator where the bot has one.
pub open spec fn mention_text(name: Seq<char>, discriminator: Option<u16>) -> Seq<char> {
    match discriminator {
        Some(d) => "@"@ + name + "#"@ + pad4(decimal(d as nat)),
        None => "@"@ + name,
    }
}

/// `s` without the copies of `p` that stand one after another at its start.
pub open spec fn strip_repeated(s: Seq<char>, p: Seq<char>) -> Seq<char>
    decreases s.len(),
{
    if p.len() > 0 && p.len() <= s.len() && s.subrange(0, p.len() as int) == p {
        strip_repeated(s.subrange(p.len() as int, s.len() as int), p)
    } else {
        s
    }
}

/// Whether a character is white space in Unicode's sense.
pub uninterp spec fn white_space(c: char) -> bool;

/// Whether `r` is a stretch of `s` with only white space before and after it.
pub open spec fn trim_edges(s: Seq<char>, r: Seq<char>) -> bool {
    exists|i: int, j: int|
        0 <= i <= j <= s.len() && r == #[trigger] s.subrange(i, j) && (forall|k: int|
            0 <= k < i ==> white_space(#[trigger] s[k])) && (forall|k: int|
            j <= k < s.len() ==> white_space(#[trigger] s[k]))
}

/// Whether `r` is `s` with its leading and trailing white space removed.
pub open spec fn is_trim(s: Seq<char>, r: Seq<char>) -> bool {
    trim_edges(s, r) && (r.len() > 0 ==> !white_space(r[0]) && !white_space(r.last()))
}

/// The instruction-template prompt that asks for a response to `request`.
pub open spec fn instruction_text(request: Seq<char>) -> Seq<char> {
    "Below is an instruction that describes a task. Write a response that appropriately completes the request.\n\n### Instruction:\n"@
        + request + "\n\n### Response:\n"@
}

/// Relies on the `Display` of `u16`: its decimal digits, no sign, no
/// leading zeros.
#[verifier::external_body]
fn decimal_text(n: u16) -> (r: String)
    ensures
        r@ == decimal(n as nat),
{
    n.to_string()
}

/// Relies on `str::trim_start_matches` with a string pattern: every copy of
/// the pattern that stands at the start, one after another, is removed.
#[verifier::external_body]
fn trim_start_matches<'a>(s: &'a str, p: &str) -> (r: &'a str)
    ensures
        r@ == strip_repeated(s@, p@),
{
    s.trim_start_matches(p)
}

/// Relies on `str::trim`: leading and trailing characters with Unicode's
/// `White_Space` property are removed.
#[verifier::external_body]
fn trim(s: &str) -> (r: &str)
    ensures
        trim_edges(s@, r@),
        r@.len() > 0 ==> !white_space(r@[0]) && !white_space(r@.last()),
{
    s.trim()
}

/// The text a message starts with when it mentions the bot.
pub fn mention_tag(name: &str, discriminator: Option<u16>) -> (r: String)
    ensures
        r@ == mention_text(name@, discriminator),
{
    let mut tag = String::from_str("@");
    tag.append(name);
    proof {
        reveal_strlit("@");
    }
    match discriminator {
        None => tag,
        Some(d) => {
            tag.append("#");
            let ghost head = tag@;
            let digits = decimal_text(d);
            let n = digits.unicode_len();
            let mut i: usize = n;
            while i < 4
                invariant
                    n == digits@.len(),
                    n <= i <= if n < 4 { 4 } else { n },
                    tag@ == head + Seq::new((i - n) as nat, |_k: int| '0'),
                decreases 4 - i,
            {
                tag.append("0");
                proof {
                    reveal_strlit("0");
                    assert(tag@ =~= head + Seq::new((i + 1 - n) as nat, |_k: int| '0'));
                }
                i = i + 1;
            }
            tag.append(digits.as_str());
            proof {
                reveal_strlit("#");
                if n < 4 {
                    assert(tag@ =~= mention_text(name@, discriminator));
                } else {
                    assert(Seq::new((i - n) as nat, |_k: int| '0') =~= Seq::<char>::empty());
                    assert(tag@ =~= mention_text(name@, discriminator));
                }
            }
            tag
        },
    }
}

/// The request that a message holds: its content without the leading
/// mentions of the bot, and without surrounding white space.
pub fn request_text(content: &str, name: &str, discriminator: Option<u16>) -> (r: String)
    ensures
        is_trim(strip_repeated(content@, mention_text(name@, discriminator)), r@),
{
    let tag = mention_tag(name, discriminator);
    let stripped = trim_start_matches(content, tag.as_str());
    let trimmed = trim(stripped);
    String::from_str(trimmed)
}

/// The instruction-template prompt for a request.
pub fn instruction_prompt(request: &str) -> (r: String)
    ensures
        r@ == instruction_text(request@),
{
    let mut p = String::from_str(
        "Below is an instruction that describes a task. Write a response that appropriately completes the request.\n\n### Instruction:\n",
    );
    p.append(request);
    p.append("\n\n### Response:\n");
    p
}

/// The prompt for a message that mentions the bot: the instruction template
/// around the message's request.
pub fn message_prompt(content: &str, name: &str, discriminator: Option<u16>) -> (r: String)
    ensures
        exists|t: Seq<char>|
            is_trim(strip_repeated(content@, mention_text(name@, discriminator)), t) && r@
                == instruction_text(t),
{
    let request = request_text(content, name, discriminator);
    instruction_prompt(request.as_str())
}

/// A reply as it is shown: the generated text without surrounding white
/// space.
pub fn reply_text(generated: &str) -> (r: String)
    ensures
        is_trim(generated@, r@),
{
    String::from_str(trim(generated))
}

} // verus!
