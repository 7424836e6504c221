use vstd::prelude::*;

verus! {

// ---------------------------------------------------------------------------
// Endpoint aliases and operator confirmation
// ---------------------------------------------------------------------------

/// The default public endpoint of the main network.
pub open spec fn mainnet_url_view() -> Seq<char> {
    "https://api.mainnet-beta.solana.com"@
}

/// The aliases that select the main network's default endpoint.
pub open spec fn is_mainnet_alias(s: Seq<char>) -> bool {
    s == "mainnet"@ || s == "main"@ || s == "m"@ || s == "mainnet-beta"@
}

/// Byte-for-byte equality of two byte slices.
fn bytes_eq(a: &[u8], b: &[u8]) -> (r: bool)
    ensures
        r == (a@ == b@),
{
    let n = a.len();
    if n != b.len() {
        return false;
    }
    let mut i: usize = 0;
    while i < n
        invariant
            0 <= i <= n,
            n == a@.len() == b@.len(),
            forall|j: int| 0 <= j < i ==> a@[j] == b@[j],
        decreases n - i,
    {
        if a[i] != b[i] {
            return false;
        }
        i += 1;
    }
    proof {
        assert(a@ =~= b@);
    }
    true
}

/// Equality of two strings, decided on their encoded bytes.
fn str_eq(a: &str, b: &str) -> (r: bool)
    ensures
        r == (a@ == b@),
{
    let r = bytes_eq(a.as_bytes(), b.as_bytes());
    proof {
        vstd::utf8::encode_utf8_decode_utf8(a@);
        vstd::utf8::encode_utf8_decode_utf8(b@);
    }
    r
}

/// Resolves a network alias: the main network's aliases map to its default
/// endpoint; anything else is already an endpoint and passes through.
pub fn get_network<'a>(network_str: &'a str) -> (r: &'a str)
    ensures
        is_mainnet_alias(network_str@) ==> r@ == mainnet_url_view(),
        !is_mainnet_alias(network_str@) ==> r@ == network_str@,
{
    if str_eq(network_str, "mainnet") || str_eq(network_str, "main") || str_eq(network_str, "m")
        || str_eq(network_str, "mainnet-beta") {
        "https://api.mainnet-beta.solana.com"
    } else {
        network_str
    }
}

/// The answers that confirm.
pub open spec fn is_yes(s: Seq<char>) -> bool {
    s == "Yes"@ || s == "yes"@ || s == "y"@
}

/// The answers that decline.
pub open spec fn is_no(s: Seq<char>) -> bool {
    s == "No"@ || s == "no"@ || s == "n"@
}

/// Reads one trimmed line of operator input as a yes, a no, or neither
/// (`None`: ask again).
pub fn parse_confirmation(input: &str) -> (r: Option<bool>)
    ensures
        is_yes(input@) ==> r == Some(true),
        is_no(input@) ==> r == Some(false),
        !is_yes(input@) && !is_no(input@) ==> r is None,
{
    proof {
        reveal_strlit("Yes");
        reveal_strlit("yes");
        reveal_strlit("y");
        reveal_strlit("No");
        reveal_strlit("no");
        reveal_strlit("n");
    }
    let yes = str_eq(input, "Yes") || str_eq(input, "yes") || str_eq(input, "y");
    let no = str_eq(input, "No") || str_eq(input, "no") || str_eq(input, "n");
    proof {
        assert("Yes"@.len() == 3 && "yes"@.len() == 3 && "y"@.len() == 1);
        assert("No"@.len() == 2 && "no"@.len() == 2 && "n"@.len() == 1);
        assert("y"@[0] == 'y' && "n"@[0] == 'n');
    }
    if yes {
        Some(true)
    } else if no {
        Some(false)
    } else {
        None
    }
}

} // verus!
