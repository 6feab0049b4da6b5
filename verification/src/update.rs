use vstd::prelude::*;
use sha2::Digest;
use crate::decimal::{decimal, decimal_value, is_digit, lemma_decimal_reads_back, push_decimal};
use crate::request::{parses_as_uri, uri_valid};

verus! {

/// What the patcher knows of the installed game compared with the latest
/// release.
#[derive(PartialEq, Eq, Structural, Clone, Copy, Debug)]
pub enum UpdateState {
    UpToDate,
    Full,
    Resume,
    Delta,
    Unknown,
}

/// Why the address of a launcher release cannot be downloaded from.
#[derive(PartialEq, Eq, Structural, Clone, Copy, Debug)]
pub enum SourceError {
    /// The address is not a valid URL.
    InvalidUrl,
    /// The address is not a valid URI.
    InvalidUri,
}

/// The word handed to the user interface once unversioned files are removed.
pub const UNVERSIONED_REMOVED: &'static str = "validate";

/// The directory, beside the launcher's own, into which a launcher release
/// is extracted.
pub const UPDATE_EXTRACT_DIR: &'static str = "launcher_update_extracted/";

/// The program, inside the extracted release, that replaces the launcher.
pub const SELF_UPDATE_EXECUTABLE: &'static str = "SelfUpdateExecutor.exe";

/// Whether a text is a valid URL (as `url::Url::parse` parses it).
pub uninterp spec fn url_valid(text: Seq<char>) -> bool;

/// What becomes of the address of a launcher release: it must parse as a URL
/// (checked first) and as a URI.
pub open spec fn update_source_check(patch_url: Seq<char>) -> Result<(), SourceError> {
    if !url_valid(patch_url) {
        Err(SourceError::InvalidUrl)
    } else if !uri_valid(patch_url) {
        Err(SourceError::InvalidUri)
    } else {
        Ok(())
    }
}

/// What the patcher knows of the latest launcher release.
pub struct LauncherInfo {
    pub version_name: String,
    pub prompted: bool,
    pub patch_url: String,
    pub patch_hash: String,
}

/// The word handed to the user interface for an update state the patcher
/// already knows (checked earlier); `None` when a fresh check is needed.
pub open spec fn known_status_word(state: UpdateState) -> Option<Seq<char>> {
    match state {
        UpdateState::UpToDate => Some("up_to_date"@),
        UpdateState::Full => Some("full"@),
        UpdateState::Resume => Some("resume"@),
        UpdateState::Delta => Some("update"@),
        UpdateState::Unknown => None,
    }
}

/// The word handed to the user interface after a fresh check of the mirrors;
/// `None` when the state is still unknown (nothing is handed over).
pub open spec fn checked_status_word(state: UpdateState) -> Option<Seq<char>> {
    match state {
        UpdateState::UpToDate => Some("up_to_date"@),
        UpdateState::Full => Some("full"@),
        UpdateState::Resume => Some("resume"@),
        UpdateState::Delta => Some("patch"@),
        UpdateState::Unknown => None,
    }
}

/// Whether the user is offered the launcher release `latest`: it differs
/// from the running version and the user was not asked about it before.
pub open spec fn offers_launcher_update(current: Seq<char>, latest: Seq<char>, prompted: bool) -> bool {
    current != latest && !prompted
}

/// The upper-case hexadecimal digit of `d` (0 to 15).
pub open spec fn hex_digit_upper(d: nat) -> char {
    if d < 10 {
        ((d + 48) as u8) as char
    } else {
        ((d + 55) as u8) as char
    }
}

/// Upper-case hexadecimal text of a byte sequence, two digits per byte, high
/// nibble first.
pub open spec fn hex_upper(data: Seq<u8>) -> Seq<char>
    decreases data.len(),
{
    if data.len() == 0 {
        seq![]
    } else {
        hex_upper(data.drop_last()) + seq![
            hex_digit_upper(data.last() as nat / 16),
            hex_digit_upper(data.last() as nat % 16),
        ]
    }
}

/// The SHA-256 digest of a byte sequence.
pub uninterp spec fn sha256_of(data: Seq<u8>) -> Seq<u8>;

/// Whether a downloaded launcher release may be installed: no hash was
/// published, or the upper-case hex of the SHA-256 of the bytes is the
/// published hash.
pub open spec fn release_accepted(data: Seq<u8>, expected: Seq<char>) -> bool {
    expected.len() == 0 || hex_upper(sha256_of(data)) == expected
}

/// The arguments handed to the self-update program.
pub open spec fn self_update_arguments(pid: u32, target: Seq<char>) -> Seq<Seq<char>> {
    seq!["--pid="@ + decimal(pid as nat), "--target="@ + target]
}

/// The SHA-256 digest of `data`, from `sha2::Sha256::digest`.
/// Claimed: the result is the digest of exactly these bytes (named
/// `sha256_of`) and is 32 bytes long, as the crate documents.
#[verifier::external_body]
fn sha256_digest(data: &[u8]) -> (d: Vec<u8>)
    ensures
        d@ == sha256_of(data@),
        d@.len() == 32,
{
    sha2::Sha256::digest(data).to_vec()
}

/// Upper-case hex text of `data`, from `hex::encode_upper`.
/// Claimed: each byte becomes two digits from "0123456789ABCDEF", high
/// nibble first, in order; this is what the crate's table-driven encoder does.
#[verifier::external_body]
fn encode_hex_upper(data: &[u8]) -> (s: String)
    ensures
        s@ == hex_upper(data@),
{
    hex::encode_upper(data)
}

/// Whether `s` parses as a `url::Url` (`url::Url::parse`). Claimed: the
/// answer depends on the text alone (named `url_valid`).
#[verifier::external_body]
fn parses_as_url(s: &str) -> (ok: bool)
    ensures
        ok == url_valid(s@),
{
    url::Url::parse(s).is_ok()
}

/// Whether two texts are equal.
fn same_text(a: &str, b: &str) -> (r: bool)
    ensures
        r == (a@ == b@),
{
    let a_owned = a.to_owned();
    let b_owned = b.to_owned();
    a_owned == b_owned
}

/// The answer to the user interface for a state the patcher already knows.
pub fn known_update_status(state: UpdateState) -> (word: Option<&'static str>)
    ensures
        word is Some == known_status_word(state) is Some,
        word matches Some(w) ==> known_status_word(state) == Some(w@),
{
    proof {
        reveal_strlit("up_to_date");
        reveal_strlit("full");
        reveal_strlit("resume");
        reveal_strlit("update");
    }
    match state {
        UpdateState::UpToDate => Some("up_to_date"),
        UpdateState::Full => Some("full"),
        UpdateState::Resume => Some("resume"),
        UpdateState::Delta => Some("update"),
        UpdateState::Unknown => None,
    }
}

/// The answer to the user interface after a fresh check.
pub fn checked_update_status(state: UpdateState) -> (word: Option<&'static str>)
    ensures
        word is Some == checked_status_word(state) is Some,
        word matches Some(w) ==> checked_status_word(state) == Some(w@),
{
    proof {
        reveal_strlit("up_to_date");
        reveal_strlit("full");
        reveal_strlit("resume");
        reveal_strlit("patch");
    }
    match state {
        UpdateState::UpToDate => Some("up_to_date"),
        UpdateState::Full => Some("full"),
        UpdateState::Resume => Some("resume"),
        UpdateState::Delta => Some("patch"),
        UpdateState::Unknown => None,
    }
}

/// Law: both answers are given for exactly the known states, and they use
/// the same word for every state but a delta patch, which is announced as
/// "update" from what the patcher knew and as "patch" after a fresh check.
pub proof fn lemma_status_words_agree(state: UpdateState)
    ensures
        known_status_word(state) is Some <==> state != UpdateState::Unknown,
        checked_status_word(state) is Some <==> state != UpdateState::Unknown,
        state != UpdateState::Delta ==> known_status_word(state) == checked_status_word(state),
        state == UpdateState::Delta ==> known_status_word(state) != checked_status_word(state),
{
    if state == UpdateState::Delta {
        reveal_strlit("update");
        reveal_strlit("patch");
        assert("update"@[0] != "patch"@[0]);
    }
}

/// The launcher version offered to the user, if any: `Some` with the name
/// of the release when it differs from `current` and the user was not asked
/// about it before; `None` (the user interface gets null) otherwise.
pub fn launcher_update_offer(current: &str, info: &LauncherInfo) -> (offer: Option<String>)
    ensures
        offer is Some == offers_launcher_update(current@, info.version_name@, info.prompted),
        offer is Some == (current@ != info.version_name@ && !info.prompted),
        offer matches Some(v) ==> v@ == info.version_name@,
{
    if !same_text(current, info.version_name.as_str()) && !info.prompted {
        Some(info.version_name.clone())
    } else {
        None
    }
}

/// Law: a release is offered exactly when its name differs from the running
/// version and the user was not asked before. The names are only compared
/// for equality, so which of two different names is the running one does not
/// matter: each is offered when the other runs.
pub proof fn lemma_offer_exactly_on_new_name(current: Seq<char>, latest: Seq<char>, prompted: bool)
    ensures
        offers_launcher_update(current, latest, prompted) == (current != latest && !prompted),
        offers_launcher_update(current, current, prompted) == false,
        offers_launcher_update(current, latest, true) == false,
        current != latest ==> offers_launcher_update(current, latest, false)
            && offers_launcher_update(latest, current, false),
{
}

/// Whether the running launcher differs from the latest release, so that the
/// self-update proceeds.
pub fn launcher_outdated(current: &str, info: &LauncherInfo) -> (outdated: bool)
    ensures
        outdated == (current@ != info.version_name@),
{
    !same_text(current, info.version_name.as_str())
}

/// Checks the address of a launcher release before it is downloaded: as a
/// URL first, then as a URI.
pub fn launcher_update_source(patch_url: &str) -> (result: Result<(), SourceError>)
    ensures
        result == update_source_check(patch_url@),
{
    if !parses_as_url(patch_url) {
        Err(SourceError::InvalidUrl)
    } else if !parses_as_uri(patch_url) {
        Err(SourceError::InvalidUri)
    } else {
        Ok(())
    }
}

/// Whether a digest, written in upper-case hex, is the published hash.
pub fn digest_matches(digest: &[u8], expected: &str) -> (ok: bool)
    ensures
        ok == (hex_upper(digest@) == expected@),
{
    let text = encode_hex_upper(digest);
    same_text(text.as_str(), expected)
}

/// Whether a downloaded launcher release may be installed (see
/// `release_accepted`); the digest is computed only when a hash was
/// published.
pub fn release_is_trusted(data: &[u8], expected: &str) -> (ok: bool)
    ensures
        ok == release_accepted(data@, expected@),
{
    if expected.is_empty() {
        true
    } else {
        let digest = sha256_digest(data);
        digest_matches(digest.as_slice(), expected)
    }
}

/// Law: the self-update program gets two arguments. The first is "--pid="
/// followed by digits that read back as the process id; the second is
/// "--target=" followed by the target directory exactly as given, whatever
/// characters (spaces, quotes) it holds.
pub proof fn lemma_self_update_arguments_layout(pid: u32, target: Seq<char>)
    ensures
        ({
            let args = self_update_arguments(pid, target);
            &&& args.len() == 2
            &&& args[0].len() >= 7
            &&& args[0].subrange(0, 6) == "--pid="@
            &&& forall|i: int| 6 <= i < args[0].len() ==> is_digit(#[trigger] args[0][i])
            &&& decimal_value(args[0].subrange(6, args[0].len() as int)) == pid
            &&& args[1].len() == 9 + target.len()
            &&& args[1].subrange(0, 9) == "--target="@
            &&& args[1].subrange(9, args[1].len() as int) == target
        }),
{
    reveal_strlit("--pid=");
    reveal_strlit("--target=");
    lemma_decimal_reads_back(pid as nat);
    let args = self_update_arguments(pid, target);
    let d = decimal(pid as nat);
    assert(args[0].subrange(0, 6) =~= "--pid="@);
    assert(args[0].subrange(6, args[0].len() as int) =~= d);
    assert forall|i: int| 6 <= i < args[0].len() implies is_digit(#[trigger] args[0][i]) by {
        assert(args[0][i] == d[i - 6]);
    }
    assert(args[1].subrange(0, 9) =~= "--target="@);
    assert(args[1].subrange(9, args[1].len() as int) =~= target);
}

/// The arguments of the self-update program: the process to wait for and
/// the directory to update.
pub fn self_update_args(pid: u32, target: &str) -> (args: Vec<String>)
    ensures
        args@.len() == 2,
        args@[0]@ == self_update_arguments(pid, target@)[0],
        args@[1]@ == self_update_arguments(pid, target@)[1],
        args@[1]@ == "--target="@ + target@,
{
    let mut pid_arg = String::new();
    pid_arg.append("--pid=");
    push_decimal(&mut pid_arg, pid as u64);
    let mut target_arg = String::new();
    target_arg.append("--target=");
    target_arg.append(target);
    assert(pid_arg@ =~= self_update_arguments(pid, target@)[0]);
    assert(target_arg@ =~= self_update_arguments(pid, target@)[1]);
    let mut args: Vec<String> = Vec::new();
    args.push(pid_arg);
    args.push(target_arg);
    args
}

} // verus!
