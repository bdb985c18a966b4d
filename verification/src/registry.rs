//! The session registry: a local connection-config file held as bytes, an
//! ordered list of host blocks of the form
//!
//! ```text
//! Host <alias>
//!   HostName <address>
//!   IdentityFile <path>
//!   User <login_user>
//! ```
//!
//! A block is recognized by its own `Host` line beginning right after a
//! newline, so an alias that is a prefix of another alias can never match the
//! wrong block. `add_entry` appends a block unless the alias is already
//! present; `remove_entry` deletes exactly the byte range from the block's
//! leading newline up to the next block marker or the end of the file.

use vstd::prelude::*;

use crate::bytes::{
    append_bytes, contains_from, copy_bytes, copy_range, find_first, first_match_from,
    lemma_first_match_at, lemma_first_match_from, lemma_match_at_implies_found, match_at,
};
use crate::errors::AppError;

verus! {

/// One registry entry. `host_alias` identifies the entry; the other three
/// fields are what the block records about the session.
#[derive(Debug)]
pub struct SessionEntry {
    pub host_alias: Vec<u8>,
    pub address: Vec<u8>,
    pub identity_path: Vec<u8>,
    pub login_user: Vec<u8>,
}

/// Outcome of `add_entry`.
#[derive(Debug, Clone, Copy, PartialEq, Eq, Structural)]
pub enum AddResult {
    Added,
    AlreadyExists,
}

/// Outcome of `remove_entry`.
#[derive(Debug, Clone, Copy, PartialEq, Eq, Structural)]
pub enum RemoveResult {
    Removed,
    NotFound,
}

/// `"\nHost "`: every block begins with this, right after the previous line.
pub open spec fn lit_marker_prefix() -> Seq<u8> {
    seq![10u8, 72u8, 111u8, 115u8, 116u8, 32u8]
}

/// `"  HostName "`.
pub open spec fn lit_hostname_prefix() -> Seq<u8> {
    seq![32u8, 32u8, 72u8, 111u8, 115u8, 116u8, 78u8, 97u8, 109u8, 101u8, 32u8]
}

/// `"  IdentityFile "`.
pub open spec fn lit_identity_prefix() -> Seq<u8> {
    seq![32u8, 32u8, 73u8, 100u8, 101u8, 110u8, 116u8, 105u8, 116u8, 121u8, 70u8, 105u8, 108u8, 101u8, 32u8]
}

/// `"  User "`.
pub open spec fn lit_user_prefix() -> Seq<u8> {
    seq![32u8, 32u8, 85u8, 115u8, 101u8, 114u8, 32u8]
}

/// A single newline.
pub open spec fn lit_nl() -> Seq<u8> {
    seq![10u8]
}

/// `"/.ssh/config"`: where the registry lives under the home directory.
pub open spec fn lit_registry_rel_path() -> Seq<u8> {
    seq![47u8, 46u8, 115u8, 115u8, 104u8, 47u8, 99u8, 111u8, 110u8, 102u8, 105u8, 103u8]
}

/// The exact line that identifies a block: `"\nHost <alias>\n"`. Including
/// the closing newline keeps an alias from matching a longer alias that it
/// is a prefix of.
pub open spec fn host_marker(alias: Seq<u8>) -> Seq<u8> {
    lit_marker_prefix() + alias + lit_nl()
}

/// The full block that `add_entry` appends for an entry.
pub open spec fn entry_block(
    alias: Seq<u8>,
    address: Seq<u8>,
    identity: Seq<u8>,
    user: Seq<u8>,
) -> Seq<u8> {
    host_marker(alias) + lit_hostname_prefix() + address + lit_nl() + lit_identity_prefix()
        + identity + lit_nl() + lit_user_prefix() + user + lit_nl()
}

/// The registry holds a block for this alias.
pub open spec fn has_entry(content: Seq<u8>, alias: Seq<u8>) -> bool {
    contains_from(content, host_marker(alias), 0)
}

/// Where the block that starts at `start` ends: at the next block marker, or
/// at the end of the file when the block is the last one.
pub open spec fn block_end_from(content: Seq<u8>, start: int) -> int {
    match first_match_from(content, lit_marker_prefix(), start + 1) {
        Some(j) => j,
        None => content.len() as int,
    }
}

/// What `add_entry` leaves in the file.
pub open spec fn add_entry_spec(
    content: Seq<u8>,
    alias: Seq<u8>,
    address: Seq<u8>,
    identity: Seq<u8>,
    user: Seq<u8>,
) -> Seq<u8> {
    if has_entry(content, alias) {
        content
    } else {
        content + entry_block(alias, address, identity, user)
    }
}

/// What `remove_entry` leaves in the file: everything before the block's
/// leading newline, then everything from the next marker (or nothing, when
/// the block is the last one).
pub open spec fn remove_entry_spec(content: Seq<u8>, alias: Seq<u8>) -> Seq<u8> {
    match first_match_from(content, host_marker(alias), 0) {
        Some(start) => content.subrange(0, start) + content.subrange(
            block_end_from(content, start),
            content.len() as int,
        ),
        None => content,
    }
}

/// A field value that can stand on one line of a block: it holds no newline.
pub open spec fn field_wf(s: Seq<u8>) -> bool {
    forall|k: int| 0 <= k < s.len() ==> s[k] != 10u8
}

/// A registry file in the shape this module writes: empty, or ending with a
/// newline.
pub open spec fn content_wf(c: Seq<u8>) -> bool {
    c.len() == 0 || c[c.len() - 1] == 10u8
}

/// Appends `"\nHost "`.
fn push_marker_prefix(out: &mut Vec<u8>)
    ensures
        final(out)@ == old(out)@ + lit_marker_prefix(),
{
    out.push(10u8);
    out.push(72u8);
    out.push(111u8);
    out.push(115u8);
    out.push(116u8);
    out.push(32u8);
    assert(out@ =~= old(out)@ + lit_marker_prefix());
}

/// Appends `"  HostName "`.
fn push_hostname_prefix(out: &mut Vec<u8>)
    ensures
        final(out)@ == old(out)@ + lit_hostname_prefix(),
{
    out.push(32u8);
    out.push(32u8);
    out.push(72u8);
    out.push(111u8);
    out.push(115u8);
    out.push(116u8);
    out.push(78u8);
    out.push(97u8);
    out.push(109u8);
    out.push(101u8);
    out.push(32u8);
    assert(out@ =~= old(out)@ + lit_hostname_prefix());
}

/// Appends `"  IdentityFile "`.
fn push_identity_prefix(out: &mut Vec<u8>)
    ensures
        final(out)@ == old(out)@ + lit_identity_prefix(),
{
    out.push(32u8);
    out.push(32u8);
    out.push(73u8);
    out.push(100u8);
    out.push(101u8);
    out.push(110u8);
    out.push(116u8);
    out.push(105u8);
    out.push(116u8);
    out.push(121u8);
    out.push(70u8);
    out.push(105u8);
    out.push(108u8);
    out.push(101u8);
    out.push(32u8);
    assert(out@ =~= old(out)@ + lit_identity_prefix());
}

/// Appends `"  User "`.
fn push_user_prefix(out: &mut Vec<u8>)
    ensures
        final(out)@ == old(out)@ + lit_user_prefix(),
{
    out.push(32u8);
    out.push(32u8);
    out.push(85u8);
    out.push(115u8);
    out.push(101u8);
    out.push(114u8);
    out.push(32u8);
    assert(out@ =~= old(out)@ + lit_user_prefix());
}

/// The block marker line for an alias, as bytes.
pub fn render_marker(alias: &Vec<u8>) -> (out: Vec<u8>)
    ensures
        out@ == host_marker(alias@),
{
    let mut out: Vec<u8> = Vec::new();
    push_marker_prefix(&mut out);
    append_bytes(&mut out, alias);
    out.push(10u8);
    assert(out@ =~= host_marker(alias@));
    out
}

/// The full block for an entry, as bytes.
pub fn render_block(entry: &SessionEntry) -> (out: Vec<u8>)
    ensures
        out@ == entry_block(
            entry.host_alias@,
            entry.address@,
            entry.identity_path@,
            entry.login_user@,
        ),
{
    let mut out = render_marker(&entry.host_alias);
    push_hostname_prefix(&mut out);
    append_bytes(&mut out, &entry.address);
    out.push(10u8);
    push_identity_prefix(&mut out);
    append_bytes(&mut out, &entry.identity_path);
    out.push(10u8);
    push_user_prefix(&mut out);
    append_bytes(&mut out, &entry.login_user);
    out.push(10u8);
    assert(out@ =~= entry_block(
        entry.host_alias@,
        entry.address@,
        entry.identity_path@,
        entry.login_user@,
    ));
    out
}

/// Scans the registry for the entry's exact alias line. If it is present the
/// file is left untouched and the caller learns `AlreadyExists`; otherwise
/// the entry's block is appended and the caller learns `Added`.
pub fn add_entry(content: &Vec<u8>, entry: &SessionEntry) -> (r: (Vec<u8>, AddResult))
    ensures
        r.0@ == add_entry_spec(
            content@,
            entry.host_alias@,
            entry.address@,
            entry.identity_path@,
            entry.login_user@,
        ),
        r.1 == AddResult::Added <==> !has_entry(content@, entry.host_alias@),
{
    let marker = render_marker(&entry.host_alias);
    match find_first(content, &marker, 0) {
        Some(_) => (copy_bytes(content), AddResult::AlreadyExists),
        None => {
            let mut out = copy_bytes(content);
            let block = render_block(entry);
            append_bytes(&mut out, &block);
            (out, AddResult::Added)
        },
    }
}

/// Locates the block whose alias line matches exactly, and deletes its byte
/// range: from its leading newline up to (not including) the next block
/// marker, or up to the end of the file when it is the last block. Every
/// other byte of the file is left unchanged. Without a matching alias line
/// the file is returned as it was.
pub fn remove_entry(content: &Vec<u8>, alias: &Vec<u8>) -> (r: (Vec<u8>, RemoveResult))
    ensures
        r.0@ == remove_entry_spec(content@, alias@),
        r.1 == RemoveResult::Removed <==> has_entry(content@, alias@),
{
    let marker = render_marker(alias);
    match find_first(content, &marker, 0) {
        None => (copy_bytes(content), RemoveResult::NotFound),
        Some(start) => {
            proof {
                lemma_first_match_from(content@, host_marker(alias@), 0);
            }
            let clen = content.len();
            assert(start < clen);
            let mut prefix: Vec<u8> = Vec::new();
            push_marker_prefix(&mut prefix);
            assert(prefix@ =~= lit_marker_prefix());
            let end = match find_first(content, &prefix, start + 1) {
                Some(e) => {
                    proof {
                        lemma_first_match_from(content@, lit_marker_prefix(), start + 1);
                    }
                    e
                },
                None => content.len(),
            };
            let mut out = copy_range(content, 0, start);
            let tail = copy_range(content, end, content.len());
            append_bytes(&mut out, &tail);
            (out, RemoveResult::Removed)
        },
    }
}

/// Resolves the registry file's path from the home directory, or reports the
/// registry unavailable when no home directory can be determined.
pub fn locate_registry(home: Option<Vec<u8>>) -> (r: Result<Vec<u8>, AppError>)
    ensures
        home matches Some(h) ==> r matches Ok(p) && p@ == h@ + lit_registry_rel_path(),
        home is None ==> (r matches Err(e) && e is RegistryUnavailable),
{
    match home {
        None => Err(AppError::RegistryUnavailable),
        Some(h) => {
            let mut out = h;
            out.push(47u8);
            out.push(46u8);
            out.push(115u8);
            out.push(115u8);
            out.push(104u8);
            out.push(47u8);
            out.push(99u8);
            out.push(111u8);
            out.push(110u8);
            out.push(102u8);
            out.push(105u8);
            out.push(103u8);
            assert(out@ =~= home->0@ + lit_registry_rel_path());
            Ok(out)
        },
    }
}

/// Inside a rendered block the marker prefix `"\nHost "` occurs only at the
/// very beginning: every later newline of the block is followed by a blank
/// or ends the block, so no inner byte range can pass for a block marker.
#[verifier::rlimit(50)]
proof fn lemma_block_no_inner_marker(
    alias: Seq<u8>,
    address: Seq<u8>,
    identity: Seq<u8>,
    user: Seq<u8>,
)
    requires
        field_wf(alias),
        field_wf(address),
        field_wf(identity),
        field_wf(user),
    ensures
        forall|j: int| 1 <= j ==> !match_at(
            entry_block(alias, address, identity, user),
            lit_marker_prefix(),
            j,
        ),
{
    let b = entry_block(alias, address, identity, user);
    let p = lit_marker_prefix();
    let la = alias.len() as int;
    let lh = address.len() as int;
    let li = identity.len() as int;
    let lu = user.len() as int;
    assert(b.len() == 43 + la + lh + li + lu);
    assert forall|j: int| 1 <= j implies !match_at(b, p, j) by {
        if match_at(b, p, j) {
            assert(b.subrange(j, j + 6)[0] == b[j]);
            assert(b.subrange(j, j + 6)[1] == b[j + 1]);
            assert(b[j] == 10u8);
            assert(b[j + 1] == 72u8);
            if j < 6 {
                assert(b[j] == lit_marker_prefix()[j]);
                assert(b[j] != 10u8);
            } else if j < 6 + la {
                assert(b[j] == alias[j - 6]);
            } else if j == 6 + la {
                assert(b[j + 1] == lit_hostname_prefix()[0]);
            } else if j < 18 + la {
                assert(b[j] == lit_hostname_prefix()[j - (7 + la)]);
                assert(b[j] != 10u8);
            } else if j < 18 + la + lh {
                assert(b[j] == address[j - (18 + la)]);
            } else if j == 18 + la + lh {
                assert(b[j + 1] == lit_identity_prefix()[0]);
            } else if j < 34 + la + lh {
                assert(b[j] == lit_identity_prefix()[j - (19 + la + lh)]);
                assert(b[j] != 10u8);
            } else if j < 34 + la + lh + li {
                assert(b[j] == identity[j - (34 + la + lh)]);
            } else if j == 34 + la + lh + li {
                assert(b[j + 1] == lit_user_prefix()[0]);
            } else if j < 42 + la + lh + li {
                assert(b[j] == lit_user_prefix()[j - (35 + la + lh + li)]);
                assert(b[j] != 10u8);
            } else if j < 42 + la + lh + li + lu {
                assert(b[j] == user[j - (42 + la + lh + li)]);
            } else {
                assert(j + 6 > b.len());
            }
        }
    }
}

/// Where a freshly appended block's marker lines can lie: the alias marker
/// first occurs exactly where the block was appended, and no block marker at
/// all occurs later. The shape conditions rule out a marker straddling the
/// boundary between the prior content and the new block.
proof fn lemma_fresh_block_occurrences(
    content: Seq<u8>,
    alias: Seq<u8>,
    address: Seq<u8>,
    identity: Seq<u8>,
    user: Seq<u8>,
)
    requires
        content_wf(content),
        alias.len() >= 1,
        field_wf(alias),
        field_wf(address),
        field_wf(identity),
        field_wf(user),
        !has_entry(content, alias),
    ensures
        first_match_from(
            content + entry_block(alias, address, identity, user),
            host_marker(alias),
            0,
        ) == Some(content.len() as int),
        forall|j: int|
            j >= content.len() + 1 ==> !match_at(
                content + entry_block(alias, address, identity, user),
                lit_marker_prefix(),
                j,
            ),
{
    let m = host_marker(alias);
    let p = lit_marker_prefix();
    let b = entry_block(alias, address, identity, user);
    let c2 = content + b;
    let ln = content.len() as int;
    let lm = m.len() as int;
    assert(lm == 7 + alias.len());

    // The alias marker first occurs exactly where the block was appended.
    assert(match_at(c2, m, ln)) by {
        assert(c2.subrange(ln, ln + lm) =~= m);
    }
    assert forall|j: int| 0 <= j < ln implies !match_at(c2, m, j) by {
        if match_at(c2, m, j) {
            if j + lm <= ln {
                // The occurrence would lie wholly in the prior content.
                assert(match_at(content, m, j)) by {
                    assert(content.subrange(j, j + lm) =~= c2.subrange(j, j + lm));
                }
                lemma_match_at_implies_found(content, m, 0, j);
            } else {
                // The occurrence would straddle the boundary. The marker's
                // final newline then falls inside the block's marker line,
                // where the only newline is its very first byte ...
                let t = j + lm - 1;
                assert(c2.subrange(j, j + lm)[lm - 1] == c2[t]);
                assert(c2[t] == m[lm - 1]);
                assert(m[lm - 1] == 10u8);
                let off = t - ln;
                assert(0 <= off <= lm - 2);
                assert(c2[t] == b[off]);
                if off == 0 {
                    // ... and that first byte lining up would put the
                    // alias's last byte where the file ends with a newline.
                    assert(ln >= 1);
                    assert(c2.subrange(j, j + lm)[lm - 2] == c2[ln - 1]);
                    assert(c2[ln - 1] == m[lm - 2]);
                    assert(m[lm - 2] == alias[alias.len() - 1]);
                    assert(c2[ln - 1] == content[ln - 1]);
                    assert(content[ln - 1] == 10u8);
                } else {
                    assert(b[off] == m[off]);
                    if off < 6 {
                        assert(m[off] == lit_marker_prefix()[off]);
                        assert(m[off] != 10u8);
                    } else {
                        assert(m[off] == alias[off - 6]);
                        assert(m[off] != 10u8);
                    }
                }
            }
        }
    }
    lemma_first_match_at(c2, m, 0, ln);

    // No block marker follows the appended block.
    lemma_block_no_inner_marker(alias, address, identity, user);
    assert forall|j: int| j >= ln + 1 implies !match_at(c2, p, j) by {
        if match_at(c2, p, j) {
            let off = j - ln;
            assert(match_at(b, p, off)) by {
                assert(b.subrange(off, off + 6) =~= c2.subrange(j, j + 6));
            }
        }
    }
}

/// Adding an entry and then removing its alias restores the file byte for
/// byte, provided the file is in registry shape (empty or newline-ended),
/// the entry's fields are single-line values, and the alias was not present
/// before the add.
pub proof fn lemma_add_remove_round_trip(
    content: Seq<u8>,
    alias: Seq<u8>,
    address: Seq<u8>,
    identity: Seq<u8>,
    user: Seq<u8>,
)
    requires
        content_wf(content),
        alias.len() >= 1,
        field_wf(alias),
        field_wf(address),
        field_wf(identity),
        field_wf(user),
        !has_entry(content, alias),
    ensures
        remove_entry_spec(add_entry_spec(content, alias, address, identity, user), alias)
            == content,
{
    let m = host_marker(alias);
    let p = lit_marker_prefix();
    let b = entry_block(alias, address, identity, user);
    let c2 = content + b;
    let ln = content.len() as int;
    assert(add_entry_spec(content, alias, address, identity, user) == c2);
    lemma_fresh_block_occurrences(content, alias, address, identity, user);

    // The appended block runs to the end of the file, so removing it keeps
    // bytes 0..ln and nothing after: the prior content.
    assert(first_match_from(c2, p, ln + 1) is None) by {
        lemma_first_match_from(c2, p, ln + 1);
    }
    assert(block_end_from(c2, ln) == c2.len());
    assert(remove_entry_spec(c2, alias) =~= content);
}

/// Adding a fresh entry yields exactly one block for its alias: the alias
/// marker occurs where the block was appended and nowhere later. Together
/// with the idempotence of `add_entry_spec` this pins "one block per alias",
/// however often the entry is re-added.
pub proof fn lemma_add_entry_single_block(
    content: Seq<u8>,
    alias: Seq<u8>,
    address: Seq<u8>,
    identity: Seq<u8>,
    user: Seq<u8>,
)
    requires
        content_wf(content),
        alias.len() >= 1,
        field_wf(alias),
        field_wf(address),
        field_wf(identity),
        field_wf(user),
        !has_entry(content, alias),
    ensures
        first_match_from(
            add_entry_spec(content, alias, address, identity, user),
            host_marker(alias),
            0,
        ) == Some(content.len() as int),
        first_match_from(
            add_entry_spec(content, alias, address, identity, user),
            host_marker(alias),
            content.len() as int + 1,
        ) is None,
{
    let m = host_marker(alias);
    let p = lit_marker_prefix();
    let b = entry_block(alias, address, identity, user);
    let c2 = content + b;
    let ln = content.len() as int;
    assert(add_entry_spec(content, alias, address, identity, user) == c2);
    lemma_fresh_block_occurrences(content, alias, address, identity, user);

    // A full alias marker anywhere after the block's start would begin with
    // a block marker there, and no such marker occurs past the boundary.
    assert forall|j: int| j >= ln + 1 implies !match_at(c2, m, j) by {
        if match_at(c2, m, j) {
            assert(match_at(c2, p, j)) by {
                assert(c2.subrange(j, j + 6) =~= m.subrange(0, 6));
                assert(m.subrange(0, 6) =~= p);
            }
        }
    }
    assert(first_match_from(c2, m, ln + 1) is None) by {
        lemma_first_match_from(c2, m, ln + 1);
    }
}

/// Adding the same alias twice changes nothing the second time: one block
/// per alias, however often the entry is re-added and whatever the later
/// entry's other fields are.
pub proof fn lemma_add_entry_idempotent(
    content: Seq<u8>,
    alias: Seq<u8>,
    address: Seq<u8>,
    identity: Seq<u8>,
    user: Seq<u8>,
    address2: Seq<u8>,
    identity2: Seq<u8>,
    user2: Seq<u8>,
)
    ensures
        add_entry_spec(
            add_entry_spec(content, alias, address, identity, user),
            alias,
            address2,
            identity2,
            user2,
        ) == add_entry_spec(content, alias, address, identity, user),
{
    let m = host_marker(alias);
    let once = add_entry_spec(content, alias, address, identity, user);
    if has_entry(content, alias) {
        assert(once == content);
    } else {
        let b = entry_block(alias, address, identity, user);
        assert(once == content + b);
        assert(match_at(once, m, content.len() as int)) by {
            assert(once.subrange(
                content.len() as int,
                content.len() as int + m.len() as int,
            ) =~= m);
        }
        lemma_match_at_implies_found(once, m, 0, content.len() as int);
    }
    assert(has_entry(once, alias));
}

} // verus!
