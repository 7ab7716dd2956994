//! Accounts: the well-known development accounts and the derived sybil accounts.

use avail_rust_client::{Keypair, SecretUri};
use vstd::prelude::*;
use vstd::string::*;

use crate::text::{
    append_decimal, ascii_lower, decimal, decimal_is_injective, decimal_reads_back, is_ascii_text,
    lower_case_ignores_ascii_case, lowercase, number, text_eq,
};

verus! {

/// An sr25519 key pair, carried as an opaque value.
#[verifier::external_type_specification]
#[verifier::external_body]
pub struct ExKeypair(Keypair);

/// A parsed secret URI, carried as an opaque value.
#[verifier::external_type_specification]
#[verifier::external_body]
pub struct ExSecretUri(SecretUri);

/// The 32 public key bytes that `Keypair::public_key` returns for `pair`.
pub uninterp spec fn public_key_of(pair: Keypair) -> Seq<u8>;

/// What parsing `text` as a `SecretUri` gives: the URI, or the debug text of the error.
pub uninterp spec fn parsed_secret_uri(text: Seq<char>) -> Result<SecretUri, Seq<char>>;

/// What `Keypair::from_uri` derives from `uri`: the public key, or the text of the error.
pub uninterp spec fn derived_public_key(uri: SecretUri) -> Result<Seq<u8>, Seq<char>>;

/// `pair` has the public key that the secret URI `suri` leads to.
pub open spec fn is_key_for(pair: Keypair, suri: Seq<char>) -> bool {
    match parsed_secret_uri(suri) {
        Ok(uri) => derived_public_key(uri) == Ok::<Seq<u8>, Seq<char>>(public_key_of(pair)),
        Err(_) => false,
    }
}

/// `Keypair::public_key`: the bytes are a function of the key pair. They are also the bytes of
/// the account id.
#[verifier::external_body]
pub(crate) fn public_key_bytes(pair: &Keypair) -> (r: [u8; 32])
    ensures
        r@ == public_key_of(*pair),
{
    pair.public_key().0
}

/// `<SecretUri as FromStr>::from_str`: the outcome is a function of the text; an error is
/// handed out as its debug text.
#[verifier::external_body]
fn parse_secret_uri(text: &str) -> (r: Result<SecretUri, String>)
    ensures
        match r {
            Ok(uri) => parsed_secret_uri(text@) == Ok::<SecretUri, Seq<char>>(uri),
            Err(e) => parsed_secret_uri(text@) == Err::<SecretUri, Seq<char>>(e@),
        },
{
    let parsed: Result<SecretUri, _> = text.parse();
    parsed.map_err(|e| format!("{e:?}"))
}

/// `Keypair::from_uri`: whether a key pair comes out, its public key, and the text of the error
/// are functions of the URI. The secret half is not: a soft junction draws its signing nonce
/// seed at random, so nothing is said of it.
#[verifier::external_body]
fn keypair_from_uri(uri: &SecretUri) -> (r: Result<Keypair, String>)
    ensures
        match r {
            Ok(pair) => derived_public_key(*uri) == Ok::<Seq<u8>, Seq<char>>(public_key_of(pair)),
            Err(e) => derived_public_key(*uri) == Err::<Seq<u8>, Seq<char>>(e@),
        },
{
    Keypair::from_uri(uri).map_err(|e| e.to_string())
}

/// `dev_accounts::alice`: the key pair of `//Alice`.
pub assume_specification[ avail_rust_client::dev_accounts::alice ]() -> (r: Keypair)
    ensures
        is_key_for(r, "//Alice"@),
;

/// `dev_accounts::bob`: the key pair of `//Bob`.
pub assume_specification[ avail_rust_client::dev_accounts::bob ]() -> (r: Keypair)
    ensures
        is_key_for(r, "//Bob"@),
;

/// `dev_accounts::charlie`: the key pair of `//Charlie`.
pub assume_specification[ avail_rust_client::dev_accounts::charlie ]() -> (r: Keypair)
    ensures
        is_key_for(r, "//Charlie"@),
;

/// `dev_accounts::dave`: the key pair of `//Dave`.
pub assume_specification[ avail_rust_client::dev_accounts::dave ]() -> (r: Keypair)
    ensures
        is_key_for(r, "//Dave"@),
;

/// `dev_accounts::eve`: the key pair of `//Eve`.
pub assume_specification[ avail_rust_client::dev_accounts::eve ]() -> (r: Keypair)
    ensures
        is_key_for(r, "//Eve"@),
;

/// `dev_accounts::ferdie`: the key pair of `//Ferdie`.
pub assume_specification[ avail_rust_client::dev_accounts::ferdie ]() -> (r: Keypair)
    ensures
        is_key_for(r, "//Ferdie"@),
;

/// `dev_accounts::one`: the key pair of `//One`.
pub assume_specification[ avail_rust_client::dev_accounts::one ]() -> (r: Keypair)
    ensures
        is_key_for(r, "//One"@),
;

/// `dev_accounts::two`: the key pair of `//Two`.
pub assume_specification[ avail_rust_client::dev_accounts::two ]() -> (r: Keypair)
    ensures
        is_key_for(r, "//Two"@),
;

/// The names of the development accounts.
pub open spec fn is_dev_account(name: Seq<char>) -> bool {
    ||| name == "alice"@
    ||| name == "bob"@
    ||| name == "charlie"@
    ||| name == "dave"@
    ||| name == "eve"@
    ||| name == "ferdie"@
    ||| name == "one"@
    ||| name == "two"@
}

/// The secret URI of the development account `name`.
pub open spec fn dev_suri(name: Seq<char>) -> Seq<char> {
    if name == "alice"@ {
        "//Alice"@
    } else if name == "bob"@ {
        "//Bob"@
    } else if name == "charlie"@ {
        "//Charlie"@
    } else if name == "dave"@ {
        "//Dave"@
    } else if name == "eve"@ {
        "//Eve"@
    } else if name == "ferdie"@ {
        "//Ferdie"@
    } else if name == "one"@ {
        "//One"@
    } else {
        "//Two"@
    }
}

/// Whether a text is the name of a development account, in lower case.
pub fn names_dev_account(name: &str) -> (r: bool)
    ensures
        r == is_dev_account(name@),
{
    text_eq(name, "alice") || text_eq(name, "bob") || text_eq(name, "charlie") || text_eq(
        name,
        "dave",
    ) || text_eq(name, "eve") || text_eq(name, "ferdie") || text_eq(name, "one") || text_eq(
        name,
        "two",
    )
}

/// Accepts the name of a development account in any letter case, and returns it in lower case.
pub fn validate_account(s: &str) -> (r: Result<String, String>)
    ensures
        match r {
            Ok(name) => is_dev_account(lowercase(s@)) && name@ == lowercase(s@),
            Err(message) => !is_dev_account(lowercase(s@)) && message@
                == "must be one of: alice,bob,charlie,dave,eve,ferdie,one,two"@,
        },
{
    let name = s.to_lowercase();
    if names_dev_account(name.as_str()) {
        Ok(name)
    } else {
        Err("must be one of: alice,bob,charlie,dave,eve,ferdie,one,two".to_owned())
    }
}

/// The key pair of a development account, named in lower case.
pub fn keypair_for(account: &str) -> (pair: Keypair)
    requires
        is_dev_account(account@),
    ensures
        is_key_for(pair, dev_suri(account@)),
{
    if text_eq(account, "alice") {
        avail_rust_client::dev_accounts::alice()
    } else if text_eq(account, "bob") {
        avail_rust_client::dev_accounts::bob()
    } else if text_eq(account, "charlie") {
        avail_rust_client::dev_accounts::charlie()
    } else if text_eq(account, "dave") {
        avail_rust_client::dev_accounts::dave()
    } else if text_eq(account, "eve") {
        avail_rust_client::dev_accounts::eve()
    } else if text_eq(account, "ferdie") {
        avail_rust_client::dev_accounts::ferdie()
    } else if text_eq(account, "one") {
        avail_rust_client::dev_accounts::one()
    } else {
        avail_rust_client::dev_accounts::two()
    }
}

/// The secret URI of the sybil account with index `i`.
pub open spec fn sybil_suri(i: nat) -> Seq<char> {
    "//da-spammer/"@ + decimal(i)
}

/// The message for a secret URI that does not parse.
pub open spec fn secret_uri_error_text(suri: Seq<char>, detail: Seq<char>) -> Seq<char> {
    "failed to parse secret URI "@ + suri + ": "@ + detail
}

/// The message for a secret URI that leads to no key pair.
pub open spec fn keypair_error_text(suri: Seq<char>, detail: Seq<char>) -> Seq<char> {
    "failed to derive keypair for "@ + suri + ": "@ + detail
}

/// The public key of the sybil account with index `i`, or the message that says why it has none.
#[verifier::opaque]
pub open spec fn sybil_public_key(i: nat) -> Result<Seq<u8>, Seq<char>> {
    match parsed_secret_uri(sybil_suri(i)) {
        Err(detail) => Err(secret_uri_error_text(sybil_suri(i), detail)),
        Ok(uri) => match derived_public_key(uri) {
            Err(detail) => Err(keypair_error_text(sybil_suri(i), detail)),
            Ok(key) => Ok(key),
        },
    }
}

/// Renders the secret URI of the sybil account with index `i`.
pub fn sybil_secret_uri(i: usize) -> (suri: String)
    ensures
        suri@ == sybil_suri(i as nat),
{
    let mut suri = "//da-spammer/".to_owned();
    append_decimal(&mut suri, i as u64);
    suri
}

/// Renders the message for a secret URI that does not parse.
pub fn secret_uri_error(suri: &str, detail: &str) -> (message: String)
    ensures
        message@ == secret_uri_error_text(suri@, detail@),
{
    let mut message = "failed to parse secret URI ".to_owned();
    message.append(suri);
    message.append(": ");
    message.append(detail);
    message
}

/// Renders the message for a secret URI that leads to no key pair.
pub fn keypair_error(suri: &str, detail: &str) -> (message: String)
    ensures
        message@ == keypair_error_text(suri@, detail@),
{
    let mut message = "failed to derive keypair for ".to_owned();
    message.append(suri);
    message.append(": ");
    message.append(detail);
    message
}

/// Derives the key pair of the sybil account with index `i`.
pub fn derive_sybil_keypair(i: usize) -> (r: Result<Keypair, String>)
    ensures
        match r {
            Ok(pair) => sybil_public_key(i as nat) == Ok::<Seq<u8>, Seq<char>>(
                public_key_of(pair),
            ),
            Err(message) => sybil_public_key(i as nat) == Err::<Seq<u8>, Seq<char>>(message@),
        },
{
    reveal(sybil_public_key);
    let suri = sybil_secret_uri(i);
    match parse_secret_uri(suri.as_str()) {
        Err(detail) => Err(secret_uri_error(suri.as_str(), detail.as_str())),
        Ok(uri) => match keypair_from_uri(&uri) {
            Err(detail) => Err(keypair_error(suri.as_str(), detail.as_str())),
            Ok(pair) => Ok(pair),
        },
    }
}

/// Derives the key pairs of the sybil accounts `0..count`, in order. The first account that has
/// none ends the derivation with its message.
pub fn derive_accounts(count: usize) -> (r: Result<Vec<Keypair>, String>)
    ensures
        match r {
            Ok(pairs) => {
                &&& pairs@.len() == count
                &&& forall|i: int|
                    0 <= i < count ==> sybil_public_key(i as nat) == Ok::<Seq<u8>, Seq<char>>(
                        public_key_of(#[trigger] pairs@[i]),
                    )
            },
            Err(message) => exists|i: int|
                {
                    &&& 0 <= i < count
                    &&& #[trigger] sybil_public_key(i as nat) == Err::<Seq<u8>, Seq<char>>(
                        message@,
                    )
                    &&& forall|j: int| 0 <= j < i ==> #[trigger] sybil_public_key(j as nat) is Ok
                },
        },
{
    let mut pairs: Vec<Keypair> = Vec::with_capacity(count);
    let mut i: usize = 0;
    while i < count
        invariant
            i <= count,
            pairs@.len() == i,
            forall|j: int|
                0 <= j < i ==> sybil_public_key(j as nat) == Ok::<Seq<u8>, Seq<char>>(
                    public_key_of(#[trigger] pairs@[j]),
                ),
        decreases count - i,
    {
        match derive_sybil_keypair(i) {
            Ok(pair) => {
                pairs.push(pair);
            },
            Err(message) => {
                let ghost failed = i as int;
                assert forall|j: int| 0 <= j < failed implies #[trigger] sybil_public_key(
                    j as nat,
                ) is Ok by {
                    assert(sybil_public_key(j as nat) == Ok::<Seq<u8>, Seq<char>>(
                        public_key_of(pairs@[j]),
                    ));
                }
                assert(0 <= failed < count);
                assert(sybil_public_key(failed as nat) == Err::<Seq<u8>, Seq<char>>(message@));
                return Err(message);
            },
        }
        i += 1;
    }
    Ok(pairs)
}

/// The account id of a key pair: its public key.
pub fn account_id(pair: &Keypair) -> (id: [u8; 32])
    ensures
        id@ == public_key_of(*pair),
{
    public_key_bytes(pair)
}

/// Every development account is named by its own lower-case form, so a name that
/// `validate_account` returned is accepted again, unchanged.
pub proof fn dev_accounts_are_lower_case(name: Seq<char>)
    requires
        is_dev_account(name),
    ensures
        lowercase(name) == name,
{
    reveal_strlit("alice");
    reveal_strlit("bob");
    reveal_strlit("charlie");
    reveal_strlit("dave");
    reveal_strlit("eve");
    reveal_strlit("ferdie");
    reveal_strlit("one");
    reveal_strlit("two");
    assert(forall|i: int| 0 <= i < name.len() ==> 'a' <= #[trigger] name[i] <= 'z');
    assert(is_ascii_text(name));
    assert(ascii_lower(name) =~= name);
}

/// Names that are equal up to the letter case of their ASCII letters are validated alike: both
/// are refused, or both are accepted as the same account.
pub proof fn letter_case_of_names_is_ignored(a: Seq<char>, b: Seq<char>)
    requires
        ascii_lower(a) == ascii_lower(b),
    ensures
        lowercase(a) == lowercase(b),
        is_dev_account(lowercase(a)) == is_dev_account(lowercase(b)),
{
    lower_case_ignores_ascii_case(a, b);
}

/// Two development accounts with different names have different secret URIs.
pub proof fn dev_suris_are_distinct(a: Seq<char>, b: Seq<char>)
    requires
        is_dev_account(a),
        is_dev_account(b),
        dev_suri(a) == dev_suri(b),
    ensures
        a == b,
{
    reveal_strlit("//Alice");
    reveal_strlit("//Bob");
    reveal_strlit("//Charlie");
    reveal_strlit("//Dave");
    reveal_strlit("//Eve");
    reveal_strlit("//Ferdie");
    reveal_strlit("//One");
    reveal_strlit("//Two");
    let x = dev_suri(a);
    let y = dev_suri(b);
    assert(x.len() == y.len() && x[2] == y[2] && x[3] == y[3]);
}

/// Sybil accounts with different indices have different secret URIs.
pub proof fn sybil_suris_are_distinct(i: nat, j: nat)
    requires
        sybil_suri(i) == sybil_suri(j),
    ensures
        i == j,
{
    let prefix = "//da-spammer/"@;
    let n = prefix.len() as int;
    assert(sybil_suri(i).skip(n) =~= decimal(i));
    assert(sybil_suri(j).skip(n) =~= decimal(j));
    decimal_is_injective(i, j);
}

/// A name is accepted exactly if its lower case is one of the eight that the refusal lists, and
/// then that lower case is what is returned. A lower-case name is looked up in the same list.
pub proof fn accepted_names_are_the_listed_ones(
    s: &str,
    r: Result<String, String>,
    lower: &str,
    named: bool,
)
    requires
        call_ensures(validate_account, (s,), r),
        call_ensures(names_dev_account, (lower,), named),
    ensures
        named <==> seq![
            "alice"@,
            "bob"@,
            "charlie"@,
            "dave"@,
            "eve"@,
            "ferdie"@,
            "one"@,
            "two"@,
        ].contains(lower@),
        r is Ok <==> seq![
            "alice"@,
            "bob"@,
            "charlie"@,
            "dave"@,
            "eve"@,
            "ferdie"@,
            "one"@,
            "two"@,
        ].contains(lowercase(s@)),
        r matches Ok(name) ==> name@ == lowercase(s@),
        r matches Err(message) ==> message@
            == "must be one of: alice,bob,charlie,dave,eve,ferdie,one,two"@,
{
    let names = seq![
        "alice"@,
        "bob"@,
        "charlie"@,
        "dave"@,
        "eve"@,
        "ferdie"@,
        "one"@,
        "two"@,
    ];
    assert(names[0] == "alice"@);
    assert(names[1] == "bob"@);
    assert(names[2] == "charlie"@);
    assert(names[3] == "dave"@);
    assert(names[4] == "eve"@);
    assert(names[5] == "ferdie"@);
    assert(names[6] == "one"@);
    assert(names[7] == "two"@);
    assert(names.len() == 8);
}

/// The secret URI of a development account is two slashes and the name of the account with a
/// capital at its head.
pub proof fn dev_suris_spell_the_name(name: Seq<char>)
    requires
        is_dev_account(name),
    ensures
        name.len() > 0,
        dev_suri(name).len() == name.len() + 2,
        dev_suri(name)[0] == '/',
        dev_suri(name)[1] == '/',
        dev_suri(name)[2] as u32 + 32 == name[0] as u32,
        forall|i: int| 1 <= i < name.len() ==> dev_suri(name)[i + 2] == #[trigger] name[i],
{
    reveal_strlit("alice");
    reveal_strlit("bob");
    reveal_strlit("charlie");
    reveal_strlit("dave");
    reveal_strlit("eve");
    reveal_strlit("ferdie");
    reveal_strlit("one");
    reveal_strlit("two");
    reveal_strlit("//Alice");
    reveal_strlit("//Bob");
    reveal_strlit("//Charlie");
    reveal_strlit("//Dave");
    reveal_strlit("//Eve");
    reveal_strlit("//Ferdie");
    reveal_strlit("//One");
    reveal_strlit("//Two");
}

/// The key pair of a development account is the one that its secret URI parses and derives to:
/// two slashes and the name of the account with a capital at its head.
pub proof fn dev_accounts_have_the_keys_of_their_names(account: &str, pair: Keypair)
    requires
        is_dev_account(account@),
        call_ensures(keypair_for, (account,), pair),
    ensures
        exists|suri: Seq<char>|
            {
                &&& #[trigger] parsed_secret_uri(suri) is Ok
                &&& derived_public_key(parsed_secret_uri(suri)->Ok_0) == Ok::<Seq<u8>, Seq<char>>(
                    public_key_of(pair),
                )
                &&& suri.len() == account@.len() + 2
                &&& suri[0] == '/' && suri[1] == '/'
                &&& suri[2] as u32 + 32 == account@[0] as u32
                &&& suri.skip(3) == account@.skip(1)
            },
{
    let suri = dev_suri(account@);
    dev_suris_spell_the_name(account@);
    assert forall|i: int| 0 <= i < account@.len() - 1 implies #[trigger] suri.skip(3)[i]
        == account@.skip(1)[i] by {
        assert(suri[i + 3] == account@[i + 1]);
    }
    assert(suri.skip(3) =~= account@.skip(1));
    assert(parsed_secret_uri(suri) is Ok);
}

/// The secret URI of a sybil account is `//da-spammer/` and its index in decimal digits.
pub proof fn sybil_suris_end_in_the_index(i: nat)
    ensures
        ({
            let suri = sybil_suri(i);
            let digits = suri.skip(13);
            &&& suri.take(13) == "//da-spammer/"@
            &&& digits.len() > 0
            &&& forall|k: int| 0 <= k < digits.len() ==> 48 <= #[trigger] digits[k] as u32 <= 57
            &&& number(digits) == i
            &&& digits[0] as u32 == 48 ==> digits.len() == 1
        }),
{
    reveal_strlit("//da-spammer/");
    decimal_reads_back(i);
    assert(sybil_suri(i).take(13) =~= "//da-spammer/"@);
    assert(sybil_suri(i).skip(13) =~= decimal(i));
}

/// A sybil account has the key that its secret URI parses and derives to. Where the URI does not
/// parse or leads to no key, the message says which, of which URI, and with which detail.
pub proof fn sybil_keys_are_those_of_their_uris(i: nat)
    ensures
        ({
            let suri = "//da-spammer/"@ + decimal(i);
            match parsed_secret_uri(suri) {
                Ok(uri) => match derived_public_key(uri) {
                    Ok(key) => sybil_public_key(i) == Ok::<Seq<u8>, Seq<char>>(key),
                    Err(detail) => sybil_public_key(i) == Err::<Seq<u8>, Seq<char>>(
                        "failed to derive keypair for "@ + suri + ": "@ + detail,
                    ),
                },
                Err(detail) => sybil_public_key(i) == Err::<Seq<u8>, Seq<char>>(
                    "failed to parse secret URI "@ + suri + ": "@ + detail,
                ),
            }
        }),
{
    reveal(sybil_public_key);
}

/// Derivation is reproducible: two derivations, of however many accounts each, agree on the
/// public key of every account that both derive.
pub proof fn derived_accounts_are_reproducible(
    count_a: usize,
    count_b: usize,
    a: Vec<Keypair>,
    b: Vec<Keypair>,
    i: int,
)
    requires
        call_ensures(derive_accounts, (count_a,), Ok::<Vec<Keypair>, String>(a)),
        call_ensures(derive_accounts, (count_b,), Ok::<Vec<Keypair>, String>(b)),
        0 <= i < count_a,
        0 <= i < count_b,
    ensures
        a@.len() == count_a,
        b@.len() == count_b,
        public_key_of(a@[i]) == public_key_of(b@[i]),
{
    assert(sybil_public_key(i as nat) == Ok::<Seq<u8>, Seq<char>>(public_key_of(a@[i])));
    assert(sybil_public_key(i as nat) == Ok::<Seq<u8>, Seq<char>>(public_key_of(b@[i])));
}

/// The account derived at position `i` has the key that `//da-spammer/` with `i` in decimal
/// behind it parses and derives to.
pub proof fn derived_accounts_have_the_keys_of_their_index(
    count: usize,
    pairs: Vec<Keypair>,
    i: int,
)
    requires
        call_ensures(derive_accounts, (count,), Ok::<Vec<Keypair>, String>(pairs)),
        0 <= i < count,
    ensures
        pairs@.len() == count,
        ({
            let suri = "//da-spammer/"@ + decimal(i as nat);
            &&& parsed_secret_uri(suri) is Ok
            &&& derived_public_key(parsed_secret_uri(suri)->Ok_0) == Ok::<Seq<u8>, Seq<char>>(
                public_key_of(pairs@[i]),
            )
        }),
{
    assert(sybil_public_key(i as nat) == Ok::<Seq<u8>, Seq<char>>(public_key_of(pairs@[i])));
    sybil_keys_are_those_of_their_uris(i as nat);
}

/// Where a derivation fails, an account among those asked for has no key, with that very message,
/// and every account before it has one.
pub proof fn derivation_fails_at_the_first_account_without_a_key(count: usize, message: String)
    requires
        call_ensures(derive_accounts, (count,), Err::<Vec<Keypair>, String>(message)),
    ensures
        exists|i: int|
            {
                &&& 0 <= i < count
                &&& #[trigger] sybil_public_key(i as nat) == Err::<Seq<u8>, Seq<char>>(message@)
                &&& forall|j: int| 0 <= j < i ==> #[trigger] sybil_public_key(j as nat) is Ok
            },
{
}

/// Deriving one account gives the same key, or the same message, as its secret URI calls for.
pub proof fn one_account_is_derived_like_many(i: usize, r: Result<Keypair, String>)
    requires
        call_ensures(derive_sybil_keypair, (i,), r),
    ensures
        ({
            let suri = "//da-spammer/"@ + decimal(i as nat);
            match parsed_secret_uri(suri) {
                Ok(uri) => match derived_public_key(uri) {
                    Ok(key) => r is Ok && public_key_of(r->Ok_0) == key,
                    Err(detail) => r is Err && r->Err_0@ == "failed to derive keypair for "@ + suri
                        + ": "@ + detail,
                },
                Err(detail) => r is Err && r->Err_0@ == "failed to parse secret URI "@ + suri
                    + ": "@ + detail,
            }
        }),
{
    sybil_keys_are_those_of_their_uris(i as nat);
}

/// The rendered secret URI of a sybil account is `//da-spammer/` and its index in decimal.
pub proof fn rendered_uris_end_in_the_index(i: usize, suri: String)
    requires
        call_ensures(sybil_secret_uri, (i,), suri),
    ensures
        suri@ == "//da-spammer/"@ + decimal(i as nat),
{
}

/// The rendered messages for a secret URI say what failed, then name the URI, and end in the
/// detail.
pub proof fn rendered_uri_errors_name_the_uri(
    suri: &str,
    detail: &str,
    parse_message: String,
    key_message: String,
)
    requires
        call_ensures(secret_uri_error, (suri, detail), parse_message),
        call_ensures(keypair_error, (suri, detail), key_message),
    ensures
        parse_message@ == "failed to parse secret URI "@ + suri@ + ": "@ + detail@,
        key_message@ == "failed to derive keypair for "@ + suri@ + ": "@ + detail@,
{
}

} // verus!
