use vstd::prelude::*;

use sha2::Digest;

verus! {

/// What SHA-256 computes of the given bytes.
pub uninterp spec fn sha256_of(data: Seq<u8>) -> Seq<u8>;

/// Computes the SHA-256 digest of `data` with `sha2::Sha256::digest`. Trusted:
/// the result is that digest, which is always 32 bytes long.
#[verifier::external_body]
fn sha256_digest(data: &[u8]) -> (r: Vec<u8>)
    ensures
        r@ == sha256_of(data@),
        r@.len() == 32,
{
    sha2::Sha256::digest(data).to_vec()
}

/// The description of a fragment-only shader: the source code of the
/// functions of its fragment shader, and how many uniform variables of each
/// kind it needs. The renderer declares the variables itself, with the names
/// that `create_variable_names` gives (`matrix0`, `color0`, ...).
pub struct FragmentOnlyShaderDescription {
    /// The source code of the functions of the fragment shader, without any
    /// declaration of inputs, outputs or uniform variables.
    pub source_code: String,
    /// The number of (float) 4x4 matrices.
    pub num_float_matrices: u8,
    pub num_colors: u8,
    pub num_float_vectors: u8,
    pub num_int_vectors: u8,
    pub num_floats: u8,
    pub num_ints: u8,
}

/// A shader description together with the hash of its source code, which lets
/// the renderer recognise shaders it has seen before.
pub struct FragmentOnlyShader {
    description: FragmentOnlyShaderDescription,
    hash: Vec<u8>,
}

impl FragmentOnlyShader {
    /// The description of this shader.
    pub closed spec fn description(&self) -> &FragmentOnlyShaderDescription {
        &self.description
    }

    /// The hash of the source code of this shader.
    pub closed spec fn hash(&self) -> Seq<u8> {
        self.hash@
    }

    /// Wraps the description, hashing its source code (encoded as UTF-8) with
    /// SHA-256.
    pub fn new(description: FragmentOnlyShaderDescription) -> (r: Self)
        ensures
            r.description() == description,
            r.hash() == sha256_of(vstd::utf8::encode_utf8(description.source_code@)),
            r.hash().len() == 32,
    {
        let hash = sha256_digest(description.source_code.as_str().as_bytes());
        FragmentOnlyShader { description, hash }
    }

    /// Gets the description of this shader.
    pub fn get_description(&self) -> (r: &FragmentOnlyShaderDescription)
        ensures
            r == self.description(),
    {
        &self.description
    }

    /// Gets the hash of the source code of this shader.
    pub fn get_hash(&self) -> (r: &Vec<u8>)
        ensures
            r@ == self.hash(),
    {
        &self.hash
    }
}

/// The character of the decimal digit `d`.
pub open spec fn digit_char(d: nat) -> char {
    if d == 0 {
        '0'
    } else if d == 1 {
        '1'
    } else if d == 2 {
        '2'
    } else if d == 3 {
        '3'
    } else if d == 4 {
        '4'
    } else if d == 5 {
        '5'
    } else if d == 6 {
        '6'
    } else if d == 7 {
        '7'
    } else if d == 8 {
        '8'
    } else {
        '9'
    }
}

/// The decimal notation of `n`, without leading zeros.
pub open spec fn decimal(n: nat) -> Seq<char>
    decreases n,
{
    if n < 10 {
        seq![digit_char(n)]
    } else {
        decimal(n / 10).push(digit_char(n % 10))
    }
}

/// A string that holds the single decimal digit `d`.
fn digit_str(d: u8) -> (r: &'static str)
    requires
        d < 10,
    ensures
        r@ == seq![digit_char(d as nat)],
{
    if d == 0 {
        proof { reveal_strlit("0"); }
        "0"
    } else if d == 1 {
        proof { reveal_strlit("1"); }
        "1"
    } else if d == 2 {
        proof { reveal_strlit("2"); }
        "2"
    } else if d == 3 {
        proof { reveal_strlit("3"); }
        "3"
    } else if d == 4 {
        proof { reveal_strlit("4"); }
        "4"
    } else if d == 5 {
        proof { reveal_strlit("5"); }
        "5"
    } else if d == 6 {
        proof { reveal_strlit("6"); }
        "6"
    } else if d == 7 {
        proof { reveal_strlit("7"); }
        "7"
    } else if d == 8 {
        proof { reveal_strlit("8"); }
        "8"
    } else {
        proof { reveal_strlit("9"); }
        "9"
    }
}

/// Appends the decimal notation of `n` to `s`.
fn push_decimal(s: &mut String, n: u8)
    ensures
        final(s)@ == old(s)@ + decimal(n as nat),
{
    if n >= 100 {
        s.append(digit_str(n / 100));
        s.append(digit_str((n / 10) % 10));
        s.append(digit_str(n % 10));
        proof {
            assert(decimal((n / 100) as nat) == seq![digit_char((n / 100) as nat)]);
            assert(decimal((n / 10) as nat) == decimal((n / 100) as nat).push(digit_char(((n / 10) % 10) as nat)));
            assert(decimal(n as nat) == decimal((n / 10) as nat).push(digit_char((n % 10) as nat)));
        }
    } else if n >= 10 {
        s.append(digit_str(n / 10));
        s.append(digit_str(n % 10));
        proof {
            assert(decimal((n / 10) as nat) == seq![digit_char((n / 10) as nat)]);
            assert(decimal(n as nat) == decimal((n / 10) as nat).push(digit_char((n % 10) as nat)));
        }
    } else {
        s.append(digit_str(n));
    }
}

/// The names of the uniform variables of one kind: `prefix0`, `prefix1`, ...,
/// `prefix255`, one for each possible index.
pub fn create_variable_names(prefix: &str) -> (r: Vec<String>)
    ensures
        r@.len() == 256,
        forall|i: int| 0 <= i < 256 ==> #[trigger] r@[i]@ == prefix@ + decimal(i as nat),
{
    let mut names: Vec<String> = Vec::with_capacity(256);
    let mut counter: u16 = 0;
    while counter < 256
        invariant
            counter <= 256,
            names@.len() == counter,
            forall|i: int| 0 <= i < counter ==> #[trigger] names@[i]@ == prefix@ + decimal(i as nat),
        decreases 256 - counter,
    {
        let mut name = prefix.to_owned();
        push_decimal(&mut name, counter as u8);
        names.push(name);
        counter = counter + 1;
    }
    names
}

/// The fragment code that fills a text button without border with its first
/// color.
pub const NO_BORDER_SOURCE: &'static str = "
            void main() {
                gl_FragColor = color1;
            }
        ";

/// The fragment code that draws a filled oval with the first color, with the
/// radii given by the first float vector.
pub const OVAL_SOURCE: &'static str = "
            void main() {
                vec2 radius = floatVector1.xy;
                float dx = (innerPosition.x - 0.5) / radius.x;
                float dy = (innerPosition.y - 0.5) / radius.y;
                if (dx * dx + dy * dy <= 1.0) {
                    gl_FragColor = color1;
                } else {
                    discard;
                }
            }
        ";

/// The description of the shader that fills a text button without border with
/// its first color.
pub fn shader_description_no_border() -> (r: FragmentOnlyShaderDescription)
    ensures
        r.source_code@ == NO_BORDER_SOURCE@,
        r.num_float_matrices == 0,
        r.num_colors == 1,
        r.num_float_vectors == 0,
        r.num_int_vectors == 0,
        r.num_floats == 0,
        r.num_ints == 0,
{
    FragmentOnlyShaderDescription {
        source_code: NO_BORDER_SOURCE.to_owned(),
        num_float_matrices: 0,
        num_colors: 1,
        num_float_vectors: 0,
        num_int_vectors: 0,
        num_floats: 0,
        num_ints: 0,
    }
}

/// The description of the shader that draws a filled oval with its first
/// color, with the radii given by the first float vector.
pub fn hover_circle_shader_description() -> (r: FragmentOnlyShaderDescription)
    ensures
        r.source_code@ == OVAL_SOURCE@,
        r.num_float_matrices == 0,
        r.num_colors == 1,
        r.num_float_vectors == 1,
        r.num_int_vectors == 0,
        r.num_floats == 0,
        r.num_ints == 0,
{
    FragmentOnlyShaderDescription {
        source_code: OVAL_SOURCE.to_owned(),
        num_float_matrices: 0,
        num_colors: 1,
        num_float_vectors: 1,
        num_int_vectors: 0,
        num_floats: 0,
        num_ints: 0,
    }
}

/// The fragment-only shader that draws a filled oval; see
/// `hover_circle_shader_description`.
pub fn create_fragment_only_shader() -> (r: FragmentOnlyShader)
    ensures
        r.description().source_code@ == OVAL_SOURCE@,
        r.description().num_float_matrices == 0,
        r.description().num_colors == 1,
        r.description().num_float_vectors == 1,
        r.description().num_int_vectors == 0,
        r.description().num_floats == 0,
        r.description().num_ints == 0,
        r.hash() == sha256_of(vstd::utf8::encode_utf8(OVAL_SOURCE@)),
        r.hash().len() == 32,
{
    FragmentOnlyShader::new(hover_circle_shader_description())
}

/// The value of a decimal digit character (the digit `0` for any other one).
pub open spec fn digit_value(c: char) -> int {
    if '0' <= c && c <= '9' {
        (c as int) - ('0' as int)
    } else {
        0
    }
}

/// The number that a string of decimal digits denotes.
pub open spec fn read_decimal(s: Seq<char>) -> int
    decreases s.len(),
{
    if s.len() == 0 {
        0
    } else {
        10 * read_decimal(s.drop_last()) + digit_value(s.last())
    }
}

/// The decimal notation of a number consists of digits only, denotes that
/// number, and starts with a zero only for the number zero itself.
pub proof fn lemma_decimal_denotes(n: nat)
    ensures
        forall|i: int| 0 <= i < decimal(n).len() ==> '0' <= #[trigger] decimal(n)[i] && decimal(n)[i] <= '9',
        read_decimal(decimal(n)) == n,
        decimal(n).len() > 0,
        n > 0 ==> decimal(n)[0] != '0',
    decreases n,
{
    if n >= 10 {
        lemma_decimal_denotes(n / 10);
        let d = decimal(n);
        assert(d.drop_last() =~= decimal(n / 10));
        assert(d.last() == digit_char(n % 10));
        assert(digit_value(digit_char(n % 10)) == n % 10);
        assert(d[0] == decimal(n / 10)[0]);
        assert(read_decimal(d) == 10 * read_decimal(d.drop_last()) + digit_value(d.last()));
        assert(n == 10 * (n / 10) + n % 10);
    } else {
        assert(digit_value(digit_char(n)) == n);
        assert(decimal(n).drop_last() =~= Seq::<char>::empty());
        assert(read_decimal(decimal(n)) == 10 * read_decimal(decimal(n).drop_last()) + digit_value(decimal(n).last()));
    }
}

} // verus!
