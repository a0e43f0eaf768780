//! Dracut configuration for LUKS-encrypted installs.

use vstd::prelude::*;

use crate::text::{
    ascii_words, chars_eq, chars_of, has_prefix, lines, slice, split_ascii_words, split_lines,
    starts_with, string_of, views,
};

verus! {

pub const LUKS_CONF_PATH: &'static str = "/etc/dracut.conf.d/luks.conf";

/// The UUID of the `cryptdata` device that a crypttab line names: its first field is
/// `cryptdata` and its second is `UUID=` followed by the UUID.
pub open spec fn line_cryptdata_uuid(line: Seq<char>) -> Option<Seq<char>> {
    let ws = ascii_words(line);
    if ws.len() >= 2 && ws[0] == "cryptdata"@ && has_prefix(ws[1], "UUID="@) {
        Some(ws[1].skip(5))
    } else {
        None
    }
}

/// The first line at or after `k` that names the `cryptdata` UUID.
pub open spec fn first_cryptdata(ls: Seq<Seq<char>>, k: int) -> Option<int>
    decreases ls.len() - k,
{
    if k < 0 || k >= ls.len() {
        None
    } else if line_cryptdata_uuid(ls[k]) is Some {
        Some(k)
    } else {
        first_cryptdata(ls, k + 1)
    }
}

pub open spec fn spec_cryptdata_uuid(crypttab: Seq<char>) -> Option<Seq<char>> {
    match first_cryptdata(lines(crypttab), 0) {
        Some(k) => line_cryptdata_uuid(lines(crypttab)[k]),
        None => None,
    }
}

/// The UUID of the encrypted root device (`cryptdata`) in the text of `/etc/crypttab`.
pub fn cryptdata_uuid(crypttab: &str) -> (r: Option<String>)
    ensures
        match r {
            Some(u) => spec_cryptdata_uuid(crypttab@) == Some(u@),
            None => spec_cryptdata_uuid(crypttab@) is None,
        },
{
    let text = chars_of(crypttab);
    let ls = split_lines(&text);
    let name = chars_of("cryptdata");
    let prefix = chars_of("UUID=");
    proof {
        reveal_strlit("UUID=");
    }
    let mut k: usize = 0;
    while k < ls.len()
        invariant
            k <= ls.len(),
            views(ls@) == lines(crypttab@),
            name@ == "cryptdata"@,
            prefix@ == "UUID="@,
            prefix@.len() == 5,
            first_cryptdata(lines(crypttab@), 0) == first_cryptdata(lines(crypttab@), k as int),
        decreases ls.len() - k,
    {
        assert(views(ls@)[k as int] == ls@[k as int]@);
        let ws = split_ascii_words(&ls[k]);
        if ws.len() >= 2 {
            assert(views(ws@)[0] == ws@[0]@);
            assert(views(ws@)[1] == ws@[1]@);
            if chars_eq(&ws[0], &name) && starts_with(&ws[1], &prefix) {
                return Some(string_of(&slice(&ws[1], 5, ws[1].len())));
            }
        }
        k = k + 1;
    }
    None
}

pub open spec fn spec_luks_config(luks_uuid: Seq<char>) -> Seq<char> {
    "add_dracutmodules+=\" crypt lvm mdraid plymouth \"\ninstall_items+=\" /etc/crypttab \"\nkernel_cmdline+=\" rd.luks.uuid="@
        + luks_uuid + " \"\n\n"@
}

/// The contents of `/etc/dracut.conf.d/luks.conf` for the root device `luks_uuid`.
pub fn luks_config(luks_uuid: &str) -> (r: String)
    ensures
        r@ == spec_luks_config(luks_uuid@),
{
    let mut r = String::new();
    r.append(
        "add_dracutmodules+=\" crypt lvm mdraid plymouth \"\ninstall_items+=\" /etc/crypttab \"\nkernel_cmdline+=\" rd.luks.uuid=",
    );
    r.append(luks_uuid);
    r.append(" \"\n\n");
    assert(r@ =~= spec_luks_config(luks_uuid@));
    r
}

/// The kernel option that `kernelstub -a` adds for the root device `uuid`.
pub fn kernelstub_luks_option(uuid: &str) -> (r: String)
    ensures
        r@ == "rd.luks.uuid="@ + uuid@,
{
    let mut r = String::new();
    r.append("rd.luks.uuid=");
    r.append(uuid);
    assert(r@ =~= "rd.luks.uuid="@ + uuid@);
    r
}

} // verus!
