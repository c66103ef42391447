//! What enrollment leaves on the host: the TLS material, the enrollment files and the service.

use crate::json;
use crate::json::Scalar;
use crate::text;
use base64::Engine;
use vstd::arithmetic::div_mod::lemma_fundamental_div_mod_converse;
use vstd::prelude::*;
use vstd::string::{StrSliceExecFns, StringExecFns};

verus! {

/// The arguments with which `openssl` writes a new key and a certificate for it.
pub open spec fn openssl_line(hostname: Seq<char>, key: Seq<char>, certificate: Seq<char>) -> Seq<
    Seq<char>,
> {
    seq![
        "req"@,
        "-x509"@,
        "-newkey"@,
        "rsa:2048"@,
        "-nodes"@,
        "-days"@,
        "365"@,
        "-subj"@,
        "/CN="@ + hostname,
        "-addext"@,
        "subjectAltName=DNS:"@ + hostname,
        "-keyout"@,
        key,
        "-out"@,
        certificate,
    ]
}

/// The arguments with which `openssl` writes a new key and a certificate for it.
pub fn openssl_arguments(hostname: &str, key: &str, certificate: &str) -> (res: Vec<String>)
    ensures
        res.deep_view() == openssl_line(hostname@, key@, certificate@),
{
    let mut subject = "/CN=".to_owned();
    subject.append(hostname);
    let mut alternative = "subjectAltName=DNS:".to_owned();
    alternative.append(hostname);
    let res = vec![
        "req".to_owned(),
        "-x509".to_owned(),
        "-newkey".to_owned(),
        "rsa:2048".to_owned(),
        "-nodes".to_owned(),
        "-days".to_owned(),
        "365".to_owned(),
        "-subj".to_owned(),
        subject,
        "-addext".to_owned(),
        alternative,
        "-keyout".to_owned(),
        key.to_owned(),
        "-out".to_owned(),
        certificate.to_owned(),
    ];
    assert(res.deep_view() =~= openssl_line(hostname@, key@, certificate@));
    res
}

/// The arguments with which `systemctl` enables and starts the service.
pub open spec fn service_line() -> Seq<Seq<char>> {
    seq!["enable"@, "--now"@, "tetra.service"@]
}

/// The arguments with which `systemctl` enables and starts the service.
pub fn service_arguments() -> (res: Vec<String>)
    ensures
        res.deep_view() == service_line(),
{
    let res = vec!["enable".to_owned(), "--now".to_owned(), "tetra.service".to_owned()];
    assert(res.deep_view() =~= service_line());
    res
}

/// The fields of the enrollment record.
pub open spec fn record_fields(
    agent_url: Seq<char>,
    certificate: Seq<char>,
    key: Seq<char>,
    identity_dir: Seq<char>,
) -> Map<Seq<char>, Scalar> {
    map![
        "agent_url"@ => Scalar::Text(agent_url),
        "tls_cert"@ => Scalar::Text(certificate),
        "tls_key"@ => Scalar::Text(key),
        "identity_dir"@ => Scalar::Text(identity_dir),
    ]
}

/// The contents of the enrollment record, which says how this host was enrolled.
pub fn enrollment_record(agent_url: &str, certificate: &str, key: &str, identity_dir: &str) -> (res:
    Vec<u8>)
    ensures
        res@ == json::pretty(record_fields(agent_url@, certificate@, key@, identity_dir@)),
{
    let mut object = json::empty_object();
    json::set_text(&mut object, "agent_url", agent_url);
    json::set_text(&mut object, "tls_cert", certificate);
    json::set_text(&mut object, "tls_key", key);
    json::set_text(&mut object, "identity_dir", identity_dir);
    json::document(&object)
}

/// The contents of the environment file of the service.
pub open spec fn environment_text(listen: Seq<char>) -> Seq<char> {
    "TETRA_LISTEN="@ + listen + "\n"@
}

/// The contents of the environment file of the service.
pub fn environment_file(listen: &str) -> (res: Vec<u8>)
    ensures
        res@ == vstd::utf8::encode_utf8(environment_text(listen@)),
{
    let mut text = "TETRA_LISTEN=".to_owned();
    text.append(listen);
    text.append("\n");
    text.as_str().as_bytes_vec()
}

/// The URL-safe base64 digit of a value below 64.
pub open spec fn base64_digit(value: int) -> char {
    if value < 26 {
        ('A' as int + value) as char
    } else if value < 52 {
        ('a' as int + value - 26) as char
    } else if value < 62 {
        ('0' as int + value - 52) as char
    } else if value == 62 {
        '-'
    } else {
        '_'
    }
}

/// The byte at `i`, and zero past the end.
pub open spec fn byte_at(bytes: Seq<u8>, i: int) -> int {
    if i < bytes.len() {
        bytes[i] as int
    } else {
        0
    }
}

/// The `i`-th group of six bits, counted from the first bit of the first byte.
pub open spec fn six_bits(bytes: Seq<u8>, i: int) -> int {
    let first = 6 * i / 8;
    let window = byte_at(bytes, first) * 256 + byte_at(bytes, first + 1);
    if i % 4 == 0 {
        window / 1024
    } else if i % 4 == 1 {
        window / 16 % 64
    } else if i % 4 == 2 {
        window / 64 % 64
    } else {
        window / 256 % 64
    }
}

/// The URL-safe base64 text of `bytes`, without padding: a digit for each group of six bits.
pub open spec fn url_safe_base64(bytes: Seq<u8>) -> Seq<char> {
    Seq::new((4 * bytes.len() + 2) / 3, |i: int| base64_digit(six_bits(bytes, i)))
}

/// `base64::Engine::encode` of the engine `URL_SAFE_NO_PAD`: the base64 text of the bytes, with
/// the alphabet for URLs and without padding.
#[verifier::external_body]
fn encode_url_safe(bytes: &[u8; 32]) -> (res: String)
    ensures
        res@ == url_safe_base64(bytes@),
{
    base64::engine::general_purpose::URL_SAFE_NO_PAD.encode(bytes)
}

/// The text of a public key, as the Dashboard takes it.
pub fn public_key_text(key: &[u8; 32]) -> (res: String)
    ensures
        res@ == url_safe_base64(key@),
{
    encode_url_safe(key)
}

proof fn lemma_base64_digits_differ(a: int, b: int)
    requires
        0 <= a < 64,
        0 <= b < 64,
        base64_digit(a) == base64_digit(b),
    ensures
        a == b,
{
}

/// How two bytes in a row fall into groups of six bits.
proof fn lemma_window(x: int, y: int)
    requires
        0 <= x < 256,
        0 <= y < 256,
    ensures
        (x * 256 + y) / 1024 == x / 4,
        (x * 256 + y) / 16 % 64 == x % 4 * 16 + y / 16,
        (x * 256 + y) / 64 % 64 == x % 16 * 4 + y / 64,
        (x * 256 + y) / 256 % 64 == x % 64,
{
    let window = x * 256 + y;
    lemma_fundamental_div_mod_converse(window, 1024, x / 4, x % 4 * 256 + y);
    lemma_fundamental_div_mod_converse(window, 16, x * 16 + y / 16, y % 16);
    lemma_fundamental_div_mod_converse(x * 16 + y / 16, 64, x / 4, x % 4 * 16 + y / 16);
    lemma_fundamental_div_mod_converse(window, 64, x * 4 + y / 64, y % 64);
    lemma_fundamental_div_mod_converse(x * 4 + y / 64, 64, x / 16, x % 16 * 4 + y / 64);
    lemma_fundamental_div_mod_converse(window, 256, x, y);
}

/// The groups of six bits that three bytes in a row fall into.
#[verifier::spinoff_prover]
proof fn lemma_six_bits(bytes: Seq<u8>, t: int)
    requires
        0 <= t,
    ensures
        six_bits(bytes, 4 * t) == byte_at(bytes, 3 * t) / 4,
        six_bits(bytes, 4 * t + 1) == byte_at(bytes, 3 * t) % 4 * 16 + byte_at(bytes, 3 * t + 1)
            / 16,
        six_bits(bytes, 4 * t + 2) == byte_at(bytes, 3 * t + 1) % 16 * 4 + byte_at(
            bytes,
            3 * t + 2,
        ) / 64,
        six_bits(bytes, 4 * t + 3) == byte_at(bytes, 3 * t + 2) % 64,
{
    lemma_window(byte_at(bytes, 3 * t), byte_at(bytes, 3 * t + 1));
    lemma_window(byte_at(bytes, 3 * t + 1), byte_at(bytes, 3 * t + 2));
    lemma_window(byte_at(bytes, 3 * t + 2), byte_at(bytes, 3 * t + 3));
}

/// Three bytes that fall into the same groups of six bits are the same.
#[verifier::spinoff_prover]
proof fn lemma_bytes_from_groups(x: int, y: int, z: int, u: int, v: int, w: int)
    requires
        0 <= x < 256,
        0 <= y < 256,
        0 <= z < 256,
        0 <= u < 256,
        0 <= v < 256,
        0 <= w < 256,
        x / 4 == u / 4,
        x % 4 * 16 + y / 16 == u % 4 * 16 + v / 16,
    ensures
        x == u,
        y % 16 * 4 + z / 64 == v % 16 * 4 + w / 64 ==> y == v,
        y % 16 * 4 + z / 64 == v % 16 * 4 + w / 64 && z % 64 == w % 64 ==> z == w,
{
}

/// The text of a public key tells the key: keys of one length with the same text are the same.
pub proof fn law_base64_is_unambiguous(a: Seq<u8>, b: Seq<u8>)
    requires
        a.len() == b.len(),
        url_safe_base64(a) == url_safe_base64(b),
    ensures
        a == b,
{
    let digits = url_safe_base64(a).len() as int;
    assert forall|i: int| 0 <= i < digits implies six_bits(a, i) == six_bits(b, i) by {
        assert(url_safe_base64(a)[i] == base64_digit(six_bits(a, i)));
        assert(url_safe_base64(b)[i] == base64_digit(six_bits(b, i)));
        lemma_base64_digits_differ(six_bits(a, i), six_bits(b, i));
    }
    assert forall|k: int| 0 <= k < a.len() implies a[k] == b[k] by {
        let t = k / 3;
        lemma_six_bits(a, t);
        lemma_six_bits(b, t);
        lemma_bytes_from_groups(
            byte_at(a, 3 * t),
            byte_at(a, 3 * t + 1),
            byte_at(a, 3 * t + 2),
            byte_at(b, 3 * t),
            byte_at(b, 3 * t + 1),
            byte_at(b, 3 * t + 2),
        );
        assert(4 * t + k % 3 + 1 < digits);
        assert(byte_at(a, k) == byte_at(b, k));
    }
    assert(a =~= b);
}

/// The text of a public key has 43 characters.
pub proof fn law_public_key_text_length(key: Seq<u8>)
    requires
        key.len() == 32,
    ensures
        url_safe_base64(key).len() == 43,
{
}

/// The value of a base64 digit.
pub open spec fn digit_value(digit: char) -> int {
    if 'A' <= digit <= 'Z' {
        digit as int - 'A' as int
    } else if 'a' <= digit <= 'z' {
        digit as int - 'a' as int + 26
    } else if '0' <= digit <= '9' {
        digit as int - '0' as int + 52
    } else if digit == '-' {
        62
    } else {
        63
    }
}

/// The byte at `k` of what a base64 text stands for, put together from its digits.
pub open spec fn byte_read(text: Seq<char>, k: int) -> int {
    let i = 4 * (k / 3);
    if k % 3 == 0 {
        digit_value(text[i]) * 4 + digit_value(text[i + 1]) / 16
    } else if k % 3 == 1 {
        digit_value(text[i + 1]) % 16 * 16 + digit_value(text[i + 2]) / 4
    } else {
        digit_value(text[i + 2]) % 4 * 64 + digit_value(text[i + 3])
    }
}

proof fn lemma_digit_value(value: int)
    requires
        0 <= value < 64,
    ensures
        digit_value(base64_digit(value)) == value,
{
}

/// Two bytes that are put together from the groups of six bits of three.
#[verifier::spinoff_prover]
proof fn lemma_groups_make_bytes(x: int, y: int, z: int)
    requires
        0 <= x < 256,
        0 <= y < 256,
        0 <= z < 256,
    ensures
        x / 4 * 4 + (x % 4 * 16 + y / 16) / 16 == x,
        (x % 4 * 16 + y / 16) % 16 * 16 + (y % 16 * 4 + z / 64) / 4 == y,
        (y % 16 * 4 + z / 64) % 4 * 64 + z % 64 == z,
{
    lemma_fundamental_div_mod_converse(x % 4 * 16 + y / 16, 16, x % 4, y / 16);
    lemma_fundamental_div_mod_converse(y % 16 * 4 + z / 64, 4, y % 16, z / 64);
}

/// The text of a public key reads back to the key, byte by byte.
pub proof fn law_public_key_reads_back(key: Seq<u8>, k: int)
    requires
        0 <= k < key.len(),
    ensures
        byte_read(url_safe_base64(key), k) == key[k],
{
    let t = k / 3;
    let text = url_safe_base64(key);
    lemma_six_bits(key, t);
    let x = byte_at(key, 3 * t);
    let y = byte_at(key, 3 * t + 1);
    let z = byte_at(key, 3 * t + 2);
    lemma_groups_make_bytes(x, y, z);
    lemma_digit_value(x / 4);
    lemma_digit_value(x % 4 * 16 + y / 16);
    lemma_digit_value(y % 16 * 4 + z / 64);
    lemma_digit_value(z % 64);
    assert(k == 3 * t + k % 3);
    assert(4 * t + k % 3 + 1 < text.len());
    assert(byte_at(key, k) == key[k]);
}

/// The environment file reads back to the listener address: after the name of the variable and
/// up to the line break at the end, its text is the address and nothing else.
pub proof fn law_environment_reads_back(listen: Seq<char>)
    ensures
        text::is_wrapped(environment_text(listen), "TETRA_LISTEN="@, listen, seq!['\n']),
{
    reveal_strlit("\n");
    assert("\n"@ =~= seq!['\n']);
    text::lemma_wrapped("TETRA_LISTEN="@, listen, seq!['\n']);
    assert(environment_text(listen) =~= "TETRA_LISTEN="@ + listen + seq!['\n']);
}

/// Different listener addresses make different environment files.
pub proof fn law_environment_is_unambiguous(a: Seq<char>, b: Seq<char>)
    requires
        environment_text(a) == environment_text(b),
    ensures
        a == b,
{
    law_environment_reads_back(a);
    law_environment_reads_back(b);
    text::law_wrapped_reads_back(environment_text(a), "TETRA_LISTEN="@, a, b, seq!['\n']);
}

/// The enrollment record holds the agent URL, the paths of the TLS material and the directory of
/// the identity, and nothing else.
pub proof fn law_record_fields(
    agent_url: Seq<char>,
    certificate: Seq<char>,
    key: Seq<char>,
    identity_dir: Seq<char>,
)
    ensures
        ({
            let fields = record_fields(agent_url, certificate, key, identity_dir);
            &&& fields.dom() == set!["agent_url"@, "tls_cert"@, "tls_key"@, "identity_dir"@]
            &&& fields["agent_url"@] == Scalar::Text(agent_url)
            &&& fields["tls_cert"@] == Scalar::Text(certificate)
            &&& fields["tls_key"@] == Scalar::Text(key)
            &&& fields["identity_dir"@] == Scalar::Text(identity_dir)
        }),
{
    reveal_strlit("agent_url");
    reveal_strlit("tls_cert");
    reveal_strlit("tls_key");
    reveal_strlit("identity_dir");
    assert("agent_url"@.len() == 9 && "tls_cert"@.len() == 8 && "tls_key"@.len() == 7);
    assert("identity_dir"@.len() == 12);
    assert(record_fields(agent_url, certificate, key, identity_dir).dom() =~= set![
        "agent_url"@,
        "tls_cert"@,
        "tls_key"@,
        "identity_dir"@,
    ]);
}

/// `openssl` is told to make a new key without a passphrase and to sign a certificate with it,
/// for the name of the host in both places that name it, and to write each to its own path.
pub proof fn law_openssl_line(hostname: Seq<char>, key: Seq<char>, certificate: Seq<char>)
    ensures
        ({
            let line = openssl_line(hostname, key, certificate);
            &&& line.len() == 15
            &&& line[0] == "req"@ && line[1] == "-x509"@
            &&& line[2] == "-newkey"@ && line[3] == "rsa:2048"@ && line[4] == "-nodes"@
            &&& line[5] == "-days"@ && line[6] == "365"@
            &&& line[7] == "-subj"@ && text::is_wrapped(line[8], "/CN="@, hostname, seq![])
            &&& line[9] == "-addext"@ && text::is_wrapped(
                line[10],
                "subjectAltName=DNS:"@,
                hostname,
                seq![],
            )
            &&& line[11] == "-keyout"@ && line[12] == key
            &&& line[13] == "-out"@ && line[14] == certificate
        }),
{
    text::lemma_wrapped("/CN="@, hostname, seq![]);
    assert("/CN="@ + hostname + seq![] =~= "/CN="@ + hostname);
    text::lemma_wrapped("subjectAltName=DNS:"@, hostname, seq![]);
    assert("subjectAltName=DNS:"@ + hostname + seq![] =~= "subjectAltName=DNS:"@ + hostname);
}

/// `systemctl` is told to enable the service and to start it.
pub proof fn law_service_line()
    ensures
        service_line() == seq!["enable"@, "--now"@, "tetra.service"@],
{
}

} // verus!
