//! The configuration of the contracts on chain.

use crate::artifacts::{elf_path, DEFAULT_RANGE_ELF};
use crate::chain_config::{setting_or, text_or};
use crate::config::{flag_or, flag_setting};
use crate::encoding::B256;
use crate::outside::{
    address_of_private_key, b256_from_hex, b256_hex, hex_digit_value, hex_digits, is_word_hex,
    keccak256_of, private_key_address, without_hex_prefix, word_of_hex, zero_address_text,
};
use crate::proving::range_vkey_commitment_from_elf;
use crate::rpc::{first_set, opt_text};
use crate::text::{
    digit, digit_value, law_trimmed_has_bare_ends, split_on, split_trimmed, texts, trim, trimmed,
    trimmed_fields, white_space,
};
use vstd::prelude::*;
use vstd::string::*;

verus! {

/// Two weeks.
pub const TWO_WEEKS_IN_SECONDS: u64 = 14 * 24 * 60 * 60;

/// What every kind of deployment configures.
#[derive(Debug)]
pub struct SharedConfigData {
    pub rollup_config_hash: String,
    pub aggregation_vkey: String,
    pub range_vkey_commitment: String,
    pub verifier_address: String,
    pub use_sp1_mock_verifier: bool,
}

/// The zero address, as text.
pub open spec fn zero_address() -> Seq<char> {
    "0x0000000000000000000000000000000000000000"@
}

/// The address of an account: the one that its variable names, else, where that is allowed, the
/// one that the private key controls, else the zero address. `None` where the private key decides
/// and is none.
pub open spec fn address_of(
    variable: Option<Seq<char>>,
    private_key_by_default: bool,
    private_key: Option<Seq<char>>,
) -> Option<Seq<char>> {
    match (variable, private_key) {
        (Some(address), _) => Some(address),
        (None, Some(key)) if private_key_by_default => private_key_address(key),
        _ => Some(zero_address()),
    }
}

/// The address of an account: the one that its variable names, else, where that is allowed, the
/// one that the private key controls, else the zero address.
pub fn get_address(
    variable: &Option<String>,
    private_key_by_default: bool,
    private_key: &Option<String>,
) -> (r: String)
    requires
        address_of(opt_text(*variable), private_key_by_default, opt_text(*private_key)) is Some,
    ensures
        Some(r@) == address_of(opt_text(*variable), private_key_by_default, opt_text(*private_key)),
{
    if let Some(address) = variable {
        return address.clone();
    }
    if private_key_by_default {
        if let Some(key) = private_key {
            if let Some(address) = address_of_private_key(key.as_str()) {
                return address;
            }
        }
    }
    zero_address_text()
}

/// The address of an account, likewise; `None` where the private key decides and is none.
pub fn checked_address(
    variable: &Option<String>,
    private_key_by_default: bool,
    private_key: &Option<String>,
) -> (r: Option<String>)
    ensures
        opt_text(r) == address_of(
            opt_text(*variable),
            private_key_by_default,
            opt_text(*private_key),
        ),
{
    if variable.is_none() && private_key_by_default {
        if let Some(key) = private_key {
            if address_of_private_key(key.as_str()).is_none() {
                return None;
            }
        }
    }
    Some(get_address(variable, private_key_by_default, private_key))
}

/// An address that a variable names is taken as it is; the private key counts only where none is
/// named and the key may stand in; and nothing but the zero address, with its forty zeros, is left
/// where neither decides.
pub proof fn law_named_address_wins(
    variable: Option<Seq<char>>,
    private_key_by_default: bool,
    private_key: Option<Seq<char>>,
)
    ensures
        variable is Some ==> address_of(variable, private_key_by_default, private_key) == variable,
        variable is None && private_key_by_default && private_key is Some ==> address_of(
            variable,
            private_key_by_default,
            private_key,
        ) == private_key_address(private_key->0),
        variable is None && !(private_key_by_default && private_key is Some) ==> (address_of(
            variable,
            private_key_by_default,
            private_key,
        ) matches Some(text) && text.len() == 42 && text[1] == 'x' && forall|i: int|
            0 <= i < 42 && i != 1 ==> #[trigger] text[i] == '0'),
{
    reveal_strlit("0x0000000000000000000000000000000000000000");
}

/// The addresses that a variable lists between commas, without the space around them and without
/// blank ones; none where it is not set.
pub fn parse_addresses(variable: &Option<String>) -> (r: Vec<String>)
    ensures
        texts(r@) == trimmed_fields(text_or(opt_text(*variable), ""@), ','),
{
    let list = setting_or(variable, "");
    split_trimmed(list.as_str(), ',')
}

/// Every address in a list is more than space, and has none around it.
pub proof fn law_listed_addresses_are_bare(list: Seq<char>, i: int)
    requires
        0 <= i < trimmed_fields(list, ',').len(),
    ensures
        ({
            let address = trimmed_fields(list, ',')[i];
            address.len() > 0 && !white_space(address[0]) && !white_space(address.last())
        }),
{
    let pieces = split_on(list, ',').map_values(|piece: Seq<char>| trimmed(piece));
    let keep = |piece: Seq<char>| piece.len() > 0;
    let address = trimmed_fields(list, ',')[i];
    assert(trimmed_fields(list, ',') == pieces.filter(keep));
    pieces.lemma_filter_pred(keep, i);
    assert(keep(pieces.filter(keep)[i]));
    assert(pieces.filter(keep).contains(address));
    pieces.lemma_filter_contains_rev(keep, address);
    let j = choose|j: int| 0 <= j < pieces.len() && pieces[j] == address;
    law_trimmed_has_bare_ends(split_on(list, ',')[j]);
}

/// A word in hexadecimal, with or without space around it.
pub fn parse_b256_hex(s: &str) -> (r: Option<B256>)
    ensures
        match r {
            Some(v) => is_word_hex(trimmed(s@)) && v@ == word_of_hex(trimmed(s@)),
            None => !is_word_hex(trimmed(s@)),
        },
{
    let bare = trim(s);
    b256_from_hex(bare.as_str())
}

/// The two digits of every byte of a word in hexadecimal denote that byte, the higher one first; and
/// a word is read off its own digits, with `0x` before them or without.
pub proof fn law_word_is_read_off_its_digits(v: Seq<u8>, i: int)
    requires
        v.len() == 32,
        0 <= i < 32,
    ensures
        hex_digits(v).len() == 64,
        v[i] == 16 * digit_value(hex_digits(v)[2 * i]) + digit_value(hex_digits(v)[2 * i + 1]),
        is_word_hex(hex_digits(v)),
        word_of_hex(hex_digits(v))[i] == v[i],
        is_word_hex("0x"@ + hex_digits(v)),
        word_of_hex("0x"@ + hex_digits(v))[i] == v[i],
{
    reveal_strlit("0x");
    let digits = hex_digits(v);
    assert forall|k: int| 0 <= k < 64 implies hex_digit_value(#[trigger] digits[k]) == Some(
        digit_value(digits[k]),
    ) && digits[k] != 'x' && digits[k] != 'X' by {
        let nibble: nat = if k % 2 == 0 {
            v[k / 2] as nat / 16
        } else {
            v[k / 2] as nat % 16
        };
        assert(nibble < 16);
        assert(digits[k] == digit(nibble));
    }
    assert(without_hex_prefix(digits) == digits);
    let prefixed = "0x"@ + digits;
    assert(prefixed.skip(2) =~= digits);
    assert(without_hex_prefix(prefixed) == digits);
    assert(hex_digit_value(digits[2 * i]) is Some && hex_digit_value(digits[2 * i + 1]) is Some);
}

/// A text of another length than 64 digits, or with another character than a digit in it, is no
/// word.
pub proof fn law_only_sixty_four_digits_are_a_word(s: Seq<char>, i: int)
    ensures
        is_word_hex(s) ==> s.len() == 64 || s.len() == 66,
        is_word_hex(s) && s.len() == 66 ==> s[0] == '0' && (s[1] == 'x' || s[1] == 'X'),
        is_word_hex(s) && s.len() == 64 && 0 <= i < 64 ==> ('0' <= s[i] <= '9' || 'a' <= s[i] <= 'f'
            || 'A' <= s[i] <= 'F'),
        is_word_hex(s) && s.len() == 66 && 2 <= i < 66 ==> ('0' <= s[i] <= '9' || 'a' <= s[i] <= 'f'
            || 'A' <= s[i] <= 'F'),
{
    let digits = without_hex_prefix(s);
    if is_word_hex(s) && s.len() == 64 && 0 <= i < 64 {
        assert(hex_digit_value(digits[i]) is Some);
    }
    if is_word_hex(s) && s.len() == 66 && 2 <= i < 66 {
        assert(hex_digit_value(digits[i - 2]) is Some);
        assert(digits[i - 2] == s[i]);
    }
}

// ---------------------------------------------------------------------------------------------
// Shared configuration
// ---------------------------------------------------------------------------------------------

/// What the variables of a deployment hold.
#[derive(Debug)]
pub struct DeploymentVars {
    pub op_zisk_mock: Option<String>,
    pub verifier_address: Option<String>,
    pub aggregation_vkey: Option<String>,
    pub agg_vkey: Option<String>,
    pub range_vkey_commitment: Option<String>,
    pub range_elf_path: Option<String>,
}

/// A step of the shared configuration: read the range program and come back, or end.
#[derive(Debug)]
pub enum SharedConfigStep {
    /// Read the range program at that path.
    ReadElf(String),
    Done(SharedConfigData),
    /// The range program at that path cannot be read.
    Fail(String),
}

/// What the user is told where the range program at `path` cannot be read.
pub open spec fn elf_failure(path: Seq<char>) -> Seq<char> {
    "failed to derive commitment from ELF: "@ + path
}

/// What the user is told where the range program at `path` cannot be read.
pub fn elf_failure_message(path: &str) -> (r: String)
    ensures
        r@ == elf_failure(path@),
        r@ == "failed to derive commitment from ELF: "@ + path@,
{
    let mut out = "failed to derive commitment from ELF: ".to_owned();
    out.append(path);
    out
}

/// The commitment to the range program that a deployment names: the given one, else the one that
/// the program itself has.
pub open spec fn named_commitment(given: Option<Seq<char>>, elf: Seq<u8>) -> Seq<char> {
    match given {
        Some(text) => text,
        None => "0x"@ + hex_digits(keccak256_of(elf)),
    }
}

/// What every kind of deployment configures, for a rollup whose configuration has that hash. The
/// key of the aggregation program has to be set; the commitment to the range program comes from
/// the program where it is not set: `elf` is what reading it gave.
pub fn get_shared_config_data(
    vars: &DeploymentVars,
    rollup_config_hash: B256,
    elf: &Option<Option<Vec<u8>>>,
) -> (r: SharedConfigStep)
    requires
        vars.aggregation_vkey is Some || vars.agg_vkey is Some,
    ensures
        ({
            let path = text_or(opt_text(vars.range_elf_path), DEFAULT_RANGE_ELF@);
            match r {
                SharedConfigStep::ReadElf(p) => vars.range_vkey_commitment is None && elf is None
                    && p@ == path,
                SharedConfigStep::Fail(p) => vars.range_vkey_commitment is None && *elf == Some(
                    None::<Vec<u8>>,
                ) && p@ == path,
                SharedConfigStep::Done(data) => {
                    &&& vars.range_vkey_commitment is Some || (*elf matches Some(Some(_)))
                    &&& data.rollup_config_hash@ == "0x"@ + hex_digits(rollup_config_hash@)
                    &&& Some(data.aggregation_vkey@) == first_set(
                        opt_text(vars.aggregation_vkey),
                        opt_text(vars.agg_vkey),
                    )
                    &&& data.range_vkey_commitment@ == named_commitment(
                        opt_text(vars.range_vkey_commitment),
                        elf->0->0@,
                    )
                    &&& data.verifier_address@ == text_or(
                        opt_text(vars.verifier_address),
                        zero_address(),
                    )
                    &&& data.use_sp1_mock_verifier == flag_or(opt_text(vars.op_zisk_mock), false)
                },
            }
        }),
{
    let use_sp1_mock_verifier = flag_setting(&vars.op_zisk_mock, false);
    let verifier_address = match &vars.verifier_address {
        Some(address) => address.clone(),
        None => zero_address_text(),
    };
    let aggregation_vkey = match &vars.aggregation_vkey {
        Some(key) => key.clone(),
        None => setting_or(&vars.agg_vkey, ""),
    };
    let range_vkey_commitment = match &vars.range_vkey_commitment {
        Some(text) => text.clone(),
        None => {
            let path = elf_path(&None, &vars.range_elf_path, DEFAULT_RANGE_ELF);
            match elf {
                None => {
                    return SharedConfigStep::ReadElf(path);
                },
                Some(None) => {
                    return SharedConfigStep::Fail(path);
                },
                Some(Some(bytes)) => b256_hex(&range_vkey_commitment_from_elf(bytes)),
            }
        },
    };
    SharedConfigStep::Done(
        SharedConfigData {
            rollup_config_hash: b256_hex(&rollup_config_hash),
            aggregation_vkey,
            range_vkey_commitment,
            verifier_address,
            use_sp1_mock_verifier,
        },
    )
}

/// A commitment that is given is taken as it is; else it is the digest of the range program, in
/// hexadecimal behind `0x`.
pub proof fn law_given_commitment_wins(given: Option<Seq<char>>, elf: Seq<u8>)
    ensures
        given is Some ==> Some(named_commitment(given, elf)) == given,
        given is None ==> named_commitment(given, elf)[0] == '0' && named_commitment(given, elf)[1]
            == 'x' && named_commitment(given, elf).skip(2) == hex_digits(keccak256_of(elf)),
{
    reveal_strlit("0x");
    if given is None {
        assert(named_commitment(given, elf).skip(2) =~= hex_digits(keccak256_of(elf)));
    }
}

// ---------------------------------------------------------------------------------------------
// The project
// ---------------------------------------------------------------------------------------------

/// Which of the directories is the root of the project: the first that holds a `.git`. The first
/// directory is the current one, each further one holds the one before it.
pub fn find_project_root(has_git: &Vec<bool>) -> (r: Option<usize>)
    ensures
        match r {
            Some(i) => i < has_git.len() && has_git[i as int] && forall|j: int|
                0 <= j < i ==> !#[trigger] has_git[j],
            None => forall|j: int| 0 <= j < has_git.len() ==> !#[trigger] has_git[j],
        },
{
    let mut i: usize = 0;
    while i < has_git.len()
        invariant
            i <= has_git.len(),
            forall|j: int| 0 <= j < i ==> !#[trigger] has_git[j],
        decreases has_git.len() - i,
    {
        if has_git[i] {
            return Some(i);
        }
        i += 1;
    }
    None
}

/// Builds the programs. Nothing is left to do: they are built by their own tool.
pub fn build_all() {
}

} // verus!
