use vstd::prelude::*;
use vstd::string::*;

verus! {

/// A benchmark name is valid exactly when it is not empty.
pub open spec fn spec_is_valid_benchmark_name(name: Seq<char>) -> bool {
    name.len() > 0
}

/// Whether `benchmark_name` may be used as the name of a benchmark.
pub fn is_valid_benchmark_name(benchmark_name: &str) -> (valid: bool)
    ensures
        valid == spec_is_valid_benchmark_name(benchmark_name@),
{
    !benchmark_name.is_empty()
}

/// Errors of value validation; each carries the rejected text.
#[derive(Debug, PartialEq, Eq)]
pub enum ValidError {
    UserName(String),
    Email(String),
    BenchmarkName(String),
    NonEmpty(String),
    Slug(String),
    ResourceId(String),
}

impl Clone for ValidError {
    fn clone(&self) -> (res: Self)
        ensures
            res == *self,
    {
        match self {
            ValidError::UserName(s) => ValidError::UserName(s.clone()),
            ValidError::Email(s) => ValidError::Email(s.clone()),
            ValidError::BenchmarkName(s) => ValidError::BenchmarkName(s.clone()),
            ValidError::NonEmpty(s) => ValidError::NonEmpty(s.clone()),
            ValidError::Slug(s) => ValidError::Slug(s.clone()),
            ValidError::ResourceId(s) => ValidError::ResourceId(s.clone()),
        }
    }
}

impl ValidError {
    /// The text that was rejected.
    pub open spec fn rejected(&self) -> Seq<char> {
        match self {
            ValidError::UserName(s) => s@,
            ValidError::Email(s) => s@,
            ValidError::BenchmarkName(s) => s@,
            ValidError::NonEmpty(s) => s@,
            ValidError::Slug(s) => s@,
            ValidError::ResourceId(s) => s@,
        }
    }

    /// The human-readable message of the error.
    pub fn message(&self) -> (msg: String)
        ensures
            msg@ == self.prefix() + self.rejected(),
    {
        let mut msg = match self {
            ValidError::UserName(_) => "Failed to validate user name: ".to_owned(),
            ValidError::Email(_) => "Failed to validate email: ".to_owned(),
            ValidError::BenchmarkName(_) => "Failed to validate benchmark name: ".to_owned(),
            ValidError::NonEmpty(_) => "Failed to validate non-empty string: ".to_owned(),
            ValidError::Slug(_) => "Failed to validate slug: ".to_owned(),
            ValidError::ResourceId(_) => "Failed to validate resource ID: ".to_owned(),
        };
        let rejected = match self {
            ValidError::UserName(s) => s,
            ValidError::Email(s) => s,
            ValidError::BenchmarkName(s) => s,
            ValidError::NonEmpty(s) => s,
            ValidError::Slug(s) => s,
            ValidError::ResourceId(s) => s,
        };
        msg.append(rejected.as_str());
        msg
    }

    /// The fixed start of the message of each kind of error.
    pub open spec fn prefix(&self) -> Seq<char> {
        match self {
            ValidError::UserName(_) => "Failed to validate user name: "@,
            ValidError::Email(_) => "Failed to validate email: "@,
            ValidError::BenchmarkName(_) => "Failed to validate benchmark name: "@,
            ValidError::NonEmpty(_) => "Failed to validate non-empty string: "@,
            ValidError::Slug(_) => "Failed to validate slug: "@,
            ValidError::ResourceId(_) => "Failed to validate resource ID: "@,
        }
    }
}


/// The name of a benchmark: text that may have been checked with
/// [`BenchmarkName::parse`], or the empty default.
#[derive(Debug, PartialEq, Eq, Hash)]
pub struct BenchmarkName(String);

impl View for BenchmarkName {
    type V = Seq<char>;

    closed spec fn view(&self) -> Seq<char> {
        self.0@
    }
}

impl BenchmarkName {
    /// Checks `benchmark_name` and keeps it as a name; an empty text is refused.
    pub fn parse(benchmark_name: &str) -> (res: Result<BenchmarkName, ValidError>)
        ensures
            res is Ok <==> spec_is_valid_benchmark_name(benchmark_name@),
            res matches Ok(name) ==> name@ == benchmark_name@,
            res matches Err(e) ==> e is BenchmarkName && e.rejected() == benchmark_name@,
    {
        if is_valid_benchmark_name(benchmark_name) {
            Ok(BenchmarkName(benchmark_name.to_owned()))
        } else {
            Err(ValidError::BenchmarkName(benchmark_name.to_owned()))
        }
    }

    /// The text of the name.
    pub fn as_str(&self) -> (text: &str)
        ensures
            text@ == self@,
    {
        self.0.as_str()
    }

    /// The text of the name, by value.
    pub fn into_string(self) -> (text: String)
        ensures
            text@ == self@,
    {
        self.0
    }
}

impl Clone for BenchmarkName {
    fn clone(&self) -> (res: Self)
        ensures
            res@ == self@,
    {
        BenchmarkName(self.0.clone())
    }
}

impl Default for BenchmarkName {
    fn default() -> (res: Self)
        ensures
            res@ == Seq::<char>::empty(),
    {
        BenchmarkName(String::new())
    }
}

impl AsRef<str> for BenchmarkName {
    fn as_ref(&self) -> (text: &str)
        ensures
            text@ == self@,
    {
        self.as_str()
    }
}

impl core::str::FromStr for BenchmarkName {
    type Err = ValidError;

    fn from_str(benchmark_name: &str) -> (res: Result<BenchmarkName, ValidError>)
        ensures
            res is Ok <==> spec_is_valid_benchmark_name(benchmark_name@),
            res matches Ok(name) ==> name@ == benchmark_name@,
            res matches Err(e) ==> e is BenchmarkName && e.rejected() == benchmark_name@,
    {
        BenchmarkName::parse(benchmark_name)
    }
}

/// Text that is never empty.
#[derive(Debug, PartialEq, Eq, Hash)]
pub struct NonEmpty(String);

impl View for NonEmpty {
    type V = Seq<char>;

    closed spec fn view(&self) -> Seq<char> {
        self.0@
    }
}

impl NonEmpty {
    #[verifier::type_invariant]
    spec fn inv(self) -> bool {
        self.0@.len() > 0
    }

    /// Keeps `text` when it is not empty.
    pub fn parse(text: &str) -> (res: Result<NonEmpty, ValidError>)
        ensures
            res is Ok <==> text@.len() > 0,
            res matches Ok(t) ==> t@ == text@,
            res matches Err(e) ==> e is NonEmpty && e.rejected() == text@,
    {
        if text.is_empty() {
            Err(ValidError::NonEmpty(text.to_owned()))
        } else {
            Ok(NonEmpty(text.to_owned()))
        }
    }

    /// The text.
    pub fn as_str(&self) -> (text: &str)
        ensures
            text@ == self@,
            text@.len() > 0,
    {
        proof {
            use_type_invariant(self);
        }
        self.0.as_str()
    }

    /// Whether the text equals `other`.
    pub fn eq_str(&self, other: &str) -> (eq: bool)
        ensures
            eq == (self@ == other@),
    {
        self.0 == other.to_owned()
    }
}

impl Clone for NonEmpty {
    fn clone(&self) -> (res: Self)
        ensures
            res == *self,
    {
        proof {
            use_type_invariant(self);
        }
        NonEmpty(self.0.clone())
    }
}

/// What `slug::slugify` gives for a text.
pub uninterp spec fn slugify_text(text: Seq<char>) -> Seq<char>;

/// `slug::slugify`: the ASCII slug of `text` (lowercase letters, digits and
/// single dashes, none at either end; other characters are transliterated
/// or become dashes). The contract only names the result.
#[verifier::external_body]
fn slugify(text: &str) -> (slug: String)
    ensures
        slug@ == slugify_text(text@),
{
    slug::slugify(text)
}

/// A slug is valid when it is not empty and slugifying leaves it unchanged.
pub open spec fn spec_is_valid_slug(text: Seq<char>) -> bool {
    text.len() > 0 && slugify_text(text) == text
}

/// Whether `text`, whose slugified form is `slugified`, is a valid slug.
pub fn is_slug_given(text: &str, slugified: &str) -> (valid: bool)
    ensures
        valid == (text@.len() > 0 && slugified@ == text@),
{
    !text.is_empty() && text.to_owned() == slugified.to_owned()
}

/// Whether `text` is a valid slug.
pub fn is_valid_slug(text: &str) -> (valid: bool)
    ensures
        valid == spec_is_valid_slug(text@),
{
    let slugified = slugify(text);
    is_slug_given(text, slugified.as_str())
}

/// The lowercase hexadecimal digit of `d`, for `d` in `0..16`.
pub open spec fn hex_digit(d: int) -> char {
    if d == 0 { '0' }
    else if d == 1 { '1' }
    else if d == 2 { '2' }
    else if d == 3 { '3' }
    else if d == 4 { '4' }
    else if d == 5 { '5' }
    else if d == 6 { '6' }
    else if d == 7 { '7' }
    else if d == 8 { '8' }
    else if d == 9 { '9' }
    else if d == 10 { 'a' }
    else if d == 11 { 'b' }
    else if d == 12 { 'c' }
    else if d == 13 { 'd' }
    else if d == 14 { 'e' }
    else { 'f' }
}

/// The `i`-th of the eight hexadecimal digits of `v`, most significant first.
pub open spec fn nibble(v: u32, i: int) -> int {
    ((v >> ((28 - 4 * i) as u32)) & 0xfu32) as int
}

/// The eight lowercase hexadecimal digits of `v`, most significant first.
pub open spec fn hex8(v: u32) -> Seq<char> {
    Seq::new(8, |i: int| hex_digit(nibble(v, i)))
}

/// Appends the hexadecimal digit of `d` to `text`.
fn push_hex_digit(text: &mut String, d: u32)
    requires
        d < 16,
    ensures
        final(text)@ == old(text)@.push(hex_digit(d as int)),
{
    let digit: &str = if d == 0 { "0" }
        else if d == 1 { "1" }
        else if d == 2 { "2" }
        else if d == 3 { "3" }
        else if d == 4 { "4" }
        else if d == 5 { "5" }
        else if d == 6 { "6" }
        else if d == 7 { "7" }
        else if d == 8 { "8" }
        else if d == 9 { "9" }
        else if d == 10 { "a" }
        else if d == 11 { "b" }
        else if d == 12 { "c" }
        else if d == 13 { "d" }
        else if d == 14 { "e" }
        else { "f" };
    proof {
        reveal_strlit("0");
        reveal_strlit("1");
        reveal_strlit("2");
        reveal_strlit("3");
        reveal_strlit("4");
        reveal_strlit("5");
        reveal_strlit("6");
        reveal_strlit("7");
        reveal_strlit("8");
        reveal_strlit("9");
        reveal_strlit("a");
        reveal_strlit("b");
        reveal_strlit("c");
        reveal_strlit("d");
        reveal_strlit("e");
        reveal_strlit("f");
    }
    text.append(digit);
    assert(text@ =~= old(text)@.push(hex_digit(d as int)));
}

/// A URL-friendly identifier of a resource within its parent.
#[derive(Debug, PartialEq, Eq, Hash)]
pub struct Slug(String);

impl View for Slug {
    type V = Seq<char>;

    closed spec fn view(&self) -> Seq<char> {
        self.0@
    }
}

impl Slug {
    /// A slug with the given text, taken as it is (see [`Slug::parse`]).
    pub fn new(text: &str) -> (slug: Slug)
        ensures
            slug@ == text@,
    {
        Slug(text.to_owned())
    }

    /// Keeps `text` as a slug when it is a valid slug.
    pub fn parse(text: &str) -> (res: Result<Slug, ValidError>)
        ensures
            res is Ok <==> spec_is_valid_slug(text@),
            res matches Ok(slug) ==> slug@ == text@,
            res matches Err(e) ==> e is Slug && e.rejected() == text@,
    {
        if is_valid_slug(text) {
            Ok(Slug(text.to_owned()))
        } else {
            Err(ValidError::Slug(text.to_owned()))
        }
    }

    /// The slug derived from a name.
    pub fn from_name(name: &NonEmpty) -> (slug: Slug)
        ensures
            slug@ == slugify_text(name@),
    {
        Slug(slugify(name.as_str()))
    }

    /// This slug followed by a dash and the eight hexadecimal digits of `chunk`.
    pub fn with_suffix(self, chunk: u32) -> (slug: Slug)
        ensures
            slug@ == self@ + seq!['-'] + hex8(chunk),
    {
        let mut text = self.0;
        proof {
            reveal_strlit("-");
        }
        text.append("-");
        let ghost start = text@;
        let mut i: u32 = 0;
        while i < 8
            invariant
                i <= 8,
                start == self@ + seq!['-'],
                text@ == start + hex8(chunk).take(i as int),
            decreases 8 - i,
        {
            let shift: u32 = 28 - 4 * i;
            let d: u32 = (chunk >> shift) & 0xf;
            assert(((chunk >> shift) & 0xfu32) < 16) by (bit_vector);
            assert(d as int == nibble(chunk, i as int));
            push_hex_digit(&mut text, d);
            assert(hex8(chunk).take(i + 1) =~= hex8(chunk).take(i as int).push(hex_digit(d as int)));
            i = i + 1;
        }
        assert(hex8(chunk).take(8) =~= hex8(chunk));
        Slug(text)
    }

    /// The text of the slug.
    pub fn as_str(&self) -> (text: &str)
        ensures
            text@ == self@,
    {
        self.0.as_str()
    }

    /// Whether the text equals `other`.
    pub fn eq_str(&self, other: &str) -> (eq: bool)
        ensures
            eq == (self@ == other@),
    {
        self.0 == other.to_owned()
    }
}

impl Clone for Slug {
    fn clone(&self) -> (res: Self)
        ensures
            res == *self,
    {
        Slug(self.0.clone())
    }
}


/// A benchmark name is valid exactly when it is not empty: any non-empty
/// text, whatever characters it holds, is a valid name.
pub proof fn lemma_benchmark_name_valid_iff_non_empty(name: Seq<char>)
    ensures
        spec_is_valid_benchmark_name(name) <==> name.len() > 0,
{
}

/// Parsing a benchmark name succeeds exactly on non-empty text, keeping it.
pub proof fn lemma_parse_benchmark_name(text: Seq<char>, res: Result<BenchmarkName, ValidError>)
    requires
        res is Ok <==> spec_is_valid_benchmark_name(text),
        res matches Ok(name) ==> name@ == text,
        res matches Err(e) ==> e is BenchmarkName && e.rejected() == text,
    ensures
        res is Ok <==> text.len() > 0,
        res matches Ok(name) ==> name@ == text,
        res is Err ==> text.len() == 0,
{
}

/// An error message ends with the rejected text.
pub proof fn lemma_message_ends_with_rejected(error: ValidError, msg: Seq<char>)
    requires
        msg == error.prefix() + error.rejected(),
    ensures
        msg.len() >= error.rejected().len(),
        msg.subrange(msg.len() - error.rejected().len(), msg.len() as int) == error.rejected(),
{
    assert(msg.subrange(msg.len() - error.rejected().len(), msg.len() as int) =~= error.rejected());
}

} // verus!
