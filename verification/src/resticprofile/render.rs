//! Rendering of a configuration document to its TOML text.
//!
//! The emitted text is specified exactly: `render_config` returns precisely
//! `spec_render_config` of its input, so identical documents always render
//! to identical text — the property the operator relies on to regenerate
//! the artifact safely on every reconcile. Keys are written in a fixed
//! order; absent options, false flags and empty lists are omitted, except
//! where a field is documented as always rendered.

use vstd::prelude::*;

use crate::resticprofile::config::{
    ResticProfileConfig, ResticProfileGlobal, ResticProfileProfile, ResticProfileProfileBackup,
    ResticProfileProfileRetention, ResticProfileVersion,
};
use crate::text::{bool_str, dec_str, quoted};
use crate::text::{append_bool, append_quoted, append_u64, seq_concat_assoc};

verus! {

/// `key = "value"` and a newline.
pub open spec fn str_line(key: Seq<char>, val: Seq<char>) -> Seq<char> {
    key + " = "@ + quoted(val) + "\n"@
}

/// `key = number` and a newline.
pub open spec fn int_line(key: Seq<char>, n: nat) -> Seq<char> {
    key + " = "@ + dec_str(n) + "\n"@
}

/// `key = true|false` and a newline.
pub open spec fn bool_line(key: Seq<char>, b: bool) -> Seq<char> {
    key + " = "@ + bool_str(b) + "\n"@
}

/// The comma-separated quoted elements of an array value.
pub open spec fn array_elems(items: Seq<Seq<char>>) -> Seq<char>
    decreases items.len(),
{
    if items.len() == 0 {
        Seq::empty()
    } else if items.len() == 1 {
        quoted(items[0])
    } else {
        array_elems(items.drop_last()) + ", "@ + quoted(items.last())
    }
}

/// `key = ["a", "b"]` and a newline.
pub open spec fn array_line(key: Seq<char>, items: Seq<Seq<char>>) -> Seq<char> {
    key + " = "@ + "["@ + array_elems(items) + "]\n"@
}

/// A string line, or nothing when the value is absent.
pub open spec fn opt_str_line(key: Seq<char>, v: Option<String>) -> Seq<char> {
    match v {
        Option::None => Seq::empty(),
        Option::Some(s) => str_line(key, s@),
    }
}

/// A number line, or nothing when the value is absent.
pub open spec fn opt_u64_line(key: Seq<char>, v: Option<u64>) -> Seq<char> {
    match v {
        Option::None => Seq::empty(),
        Option::Some(n) => int_line(key, n as nat),
    }
}

/// A number line, or nothing when the value is absent.
pub open spec fn opt_u32_line(key: Seq<char>, v: Option<u32>) -> Seq<char> {
    match v {
        Option::None => Seq::empty(),
        Option::Some(n) => int_line(key, n as nat),
    }
}

/// A number line, or nothing when the value is absent.
pub open spec fn opt_u8_line(key: Seq<char>, v: Option<u8>) -> Seq<char> {
    match v {
        Option::None => Seq::empty(),
        Option::Some(n) => int_line(key, n as nat),
    }
}

/// A `key = true` line, or nothing when the flag is false.
pub open spec fn flag_line(key: Seq<char>, b: bool) -> Seq<char> {
    if b {
        bool_line(key, b)
    } else {
        Seq::empty()
    }
}

/// An array line, or nothing when the list is empty.
pub open spec fn vec_line(key: Seq<char>, items: Seq<String>) -> Seq<char> {
    if items.len() == 0 {
        Seq::empty()
    } else {
        array_line(key, items.map_values(|s: String| s@))
    }
}

/// Whether a character may appear in a bare TOML key.
pub open spec fn is_bare_char(c: char) -> bool {
    ||| ('a' as u32) <= (c as u32) && (c as u32) <= ('z' as u32)
    ||| ('A' as u32) <= (c as u32) && (c as u32) <= ('Z' as u32)
    ||| ('0' as u32) <= (c as u32) && (c as u32) <= ('9' as u32)
    ||| c == '_'
    ||| c == '-'
}

/// Whether a key can be written bare, without quotes.
pub open spec fn is_bare_key(name: Seq<char>) -> bool {
    name.len() > 0 && forall|i: int| 0 <= i < name.len() ==> is_bare_char(#[trigger] name[i])
}

/// A table key: bare where possible, quoted otherwise.
pub open spec fn table_key(name: Seq<char>) -> Seq<char> {
    if is_bare_key(name) {
        name
    } else {
        quoted(name)
    }
}

/// A table header: a blank separator line, then `[path]`.
pub open spec fn header(path: Seq<char>) -> Seq<char> {
    "\n["@ + path + "]\n"@
}

/// The body of the `[global]` section.
pub open spec fn spec_global_body(g: ResticProfileGlobal) -> Seq<char> {
    opt_u64_line("min-memory"@, g.min_memory) + opt_str_line(
        "restic-lock-retry-after"@,
        g.restic_lock_retry_after,
    ) + opt_str_line("restic-stale-lock-age"@, g.restic_stale_lock_age)
}

/// The scalar lines of one profile section.
pub open spec fn spec_profile_body(p: ResticProfileProfile) -> Seq<char> {
    opt_str_line("cacert"@, p.cacert) + opt_str_line("cache-dir"@, p.cache_dir) + opt_str_line(
        "compression"@,
        p.compression,
    ) + opt_str_line("http-user-agent"@, p.http_user_agent) + flag_line(
        "insecure-tls"@,
        p.insecure_tls,
    ) + opt_u64_line("limit-download"@, p.limit_download) + opt_u64_line(
        "limit-upload"@,
        p.limit_upload,
    ) + flag_line("no-cache"@, p.no_cache) + flag_line("no-extra-verify"@, p.no_extra_verify)
        + opt_u64_line("pack-size"@, p.pack_size) + opt_str_line("password-file"@, p.password_file)
        + opt_str_line("repository"@, p.repository) + opt_str_line(
        "tls-client-cert"@,
        p.tls_client_cert,
    ) + opt_u8_line("verbose"@, p.verbose)
}

/// The body of a `backup` command section.
pub open spec fn spec_backup_body(b: ResticProfileProfileBackup) -> Seq<char> {
    flag_line("check-after"@, b.check_after) + flag_line("check-before"@, b.check_before)
        + flag_line("no-error-on-warning"@, b.no_error_on_warning) + vec_line(
        "source"@,
        b.source@,
    ) + vec_line("exclude"@, b.exclude@) + flag_line("exclude-caches"@, b.exclude_caches)
        + vec_line("exclude-if-present"@, b.exclude_if_present@) + opt_str_line(
        "exclude-larger-than"@,
        b.exclude_larger_than,
    ) + opt_str_line("host"@, b.host) + vec_line("iexclude"@, b.iexclude@) + vec_line(
        "tag"@,
        b.tag@,
    )
}

/// The body of a `retention` command section. The `host` flag is always
/// rendered.
pub open spec fn spec_retention_body(r: ResticProfileProfileRetention) -> Seq<char> {
    flag_line("after-backup"@, r.after_backup) + flag_line("before-backup"@, r.before_backup)
        + bool_line("host"@, r.host) + opt_u32_line("keep-last"@, r.keep_last) + opt_u32_line(
        "keep-hourly"@,
        r.keep_hourly,
    ) + opt_u32_line("keep-daily"@, r.keep_daily) + opt_u32_line("keep-weekly"@, r.keep_weekly)
        + opt_u32_line("keep-monthly"@, r.keep_monthly) + opt_u32_line(
        "keep-yearly"@,
        r.keep_yearly,
    ) + flag_line("prune"@, r.prune)
}

/// One whole profile section with its optional command subsections.
pub open spec fn spec_profile_section(name: Seq<char>, p: ResticProfileProfile) -> Seq<char> {
    header(table_key(name)) + spec_profile_body(p) + (match p.backup {
        Option::None => Seq::empty(),
        Option::Some(b) => header(table_key(name) + ".backup"@) + spec_backup_body(b),
    }) + (match p.retention {
        Option::None => Seq::empty(),
        Option::Some(r) => header(table_key(name) + ".retention"@) + spec_retention_body(r),
    })
}

/// All profile sections, in document order.
pub open spec fn spec_profiles(ps: Seq<(String, ResticProfileProfile)>) -> Seq<char>
    decreases ps.len(),
{
    if ps.len() == 0 {
        Seq::empty()
    } else {
        spec_profiles(ps.drop_last()) + spec_profile_section(ps.last().0@, ps.last().1)
    }
}

/// The word each format version is written as.
pub open spec fn version_str(v: ResticProfileVersion) -> Seq<char> {
    match v {
        ResticProfileVersion::V1 => "1"@,
    }
}

/// The whole document: the version line, the optional global section, and
/// every profile section in order.
pub open spec fn spec_render_config(c: ResticProfileConfig) -> Seq<char> {
    str_line("version"@, version_str(c.version)) + (match c.global {
        Option::None => Seq::empty(),
        Option::Some(g) => header("global"@) + spec_global_body(g),
    }) + spec_profiles(c.profiles@)
}

/// Appends `key = ` (without a value).
fn append_key_eq(out: &mut String, key: &str)
    ensures
        final (out)@ == old(out)@ + key@ + " = "@,
{
    out.append(key);
    out.append(" = ");
}

/// Appends a `key = "value"` line.
fn append_str_line(out: &mut String, key: &str, val: &str)
    ensures
        final (out)@ == old(out)@ + str_line(key@, val@),
{
    append_key_eq(out, key);
    append_quoted(out, val);
    out.append("\n");
    proof {
        assert(out@ =~= old(out)@ + str_line(key@, val@));
    }
}

/// Appends a `key = number` line.
fn append_u64_line(out: &mut String, key: &str, n: u64)
    ensures
        final (out)@ == old(out)@ + int_line(key@, n as nat),
{
    append_key_eq(out, key);
    append_u64(out, n);
    out.append("\n");
    proof {
        assert(out@ =~= old(out)@ + int_line(key@, n as nat));
    }
}

/// Appends a `key = true|false` line.
fn append_bool_line(out: &mut String, key: &str, b: bool)
    ensures
        final (out)@ == old(out)@ + bool_line(key@, b),
{
    append_key_eq(out, key);
    append_bool(out, b);
    out.append("\n");
    proof {
        assert(out@ =~= old(out)@ + bool_line(key@, b));
    }
}

/// Appends a string line when the value is present.
fn append_opt_str_line(out: &mut String, key: &str, v: &Option<String>)
    ensures
        final (out)@ == old(out)@ + opt_str_line(key@, *v),
{
    match v {
        Option::None => {
            proof {
                assert(out@ =~= old(out)@ + opt_str_line(key@, *v));
            }
        },
        Option::Some(s) => {
            append_str_line(out, key, s.as_str());
        },
    }
}

/// Appends a number line when the value is present.
fn append_opt_u64_line(out: &mut String, key: &str, v: &Option<u64>)
    ensures
        final (out)@ == old(out)@ + opt_u64_line(key@, *v),
{
    match v {
        Option::None => {
            proof {
                assert(out@ =~= old(out)@ + opt_u64_line(key@, *v));
            }
        },
        Option::Some(n) => {
            append_u64_line(out, key, *n);
        },
    }
}

/// Appends a number line when the value is present.
fn append_opt_u32_line(out: &mut String, key: &str, v: &Option<u32>)
    ensures
        final (out)@ == old(out)@ + opt_u32_line(key@, *v),
{
    match v {
        Option::None => {
            proof {
                assert(out@ =~= old(out)@ + opt_u32_line(key@, *v));
            }
        },
        Option::Some(n) => {
            append_u64_line(out, key, *n as u64);
        },
    }
}

/// Appends a number line when the value is present.
fn append_opt_u8_line(out: &mut String, key: &str, v: &Option<u8>)
    ensures
        final (out)@ == old(out)@ + opt_u8_line(key@, *v),
{
    match v {
        Option::None => {
            proof {
                assert(out@ =~= old(out)@ + opt_u8_line(key@, *v));
            }
        },
        Option::Some(n) => {
            append_u64_line(out, key, *n as u64);
        },
    }
}

/// Appends a `key = true` line when the flag is set.
fn append_flag_line(out: &mut String, key: &str, b: bool)
    ensures
        final (out)@ == old(out)@ + flag_line(key@, b),
{
    if b {
        append_bool_line(out, key, true);
    } else {
        proof {
            assert(out@ =~= old(out)@ + flag_line(key@, b));
        }
    }
}

/// Appends a `key = ["a", "b"]` line when the list is non-empty.
fn append_vec_line(out: &mut String, key: &str, items: &Vec<String>)
    ensures
        final (out)@ == old(out)@ + vec_line(key@, items@),
{
    let ghost elems: Seq<Seq<char>> = items@.map_values(|s: String| s@);
    if items.len() == 0 {
        proof {
            assert(out@ =~= old(out)@ + vec_line(key@, items@));
        }
    } else {
        append_key_eq(out, key);
        out.append("[");
        let mut i: usize = 0;
        while i < items.len()
            invariant
                0 <= i <= items.len(),
                elems == items@.map_values(|s: String| s@),
                elems.len() == items@.len(),
                out@ == old(out)@ + key@ + " = "@ + "["@ + array_elems(elems.take(i as int)),
            decreases items.len() - i,
        {
            if i > 0 {
                out.append(", ");
            }
            append_quoted(out, items[i].as_str());
            proof {
                assert(elems.take(i + 1 as int).drop_last() =~= elems.take(i as int));
                assert(elems.take(i + 1 as int).last() == items@[i as int]@);
                assert(out@ =~= old(out)@ + key@ + " = "@ + "["@ + array_elems(
                    elems.take(i + 1 as int),
                ));
            }
            i = i + 1;
        }
        out.append("]\n");
        proof {
            assert(elems.take(items@.len() as int) =~= elems);
            assert(out@ =~= old(out)@ + vec_line(key@, items@));
        }
    }
}

/// Whether `name` can stand bare as a table key.
fn is_bare(name: &str) -> (r: bool)
    ensures
        r == is_bare_key(name@),
{
    let len: usize = name.unicode_len();
    if len == 0 {
        return false;
    }
    let mut i: usize = 0;
    while i < len
        invariant
            len == name@.len(),
            0 <= i <= len,
            forall|j: int| 0 <= j < i ==> is_bare_char(#[trigger] name@[j]),
        decreases len - i,
    {
        let c: char = name.get_char(i);
        let code: u32 = c as u32;
        let ok: bool = (('a' as u32) <= code && code <= ('z' as u32)) || (('A' as u32) <= code
            && code <= ('Z' as u32)) || (('0' as u32) <= code && code <= ('9' as u32)) || c == '_'
            || c == '-';
        if !ok {
            return false;
        }
        i = i + 1;
    }
    true
}

/// Appends a table key: bare where possible, quoted otherwise.
fn append_table_key(out: &mut String, name: &str)
    ensures
        final (out)@ == old(out)@ + table_key(name@),
{
    if is_bare(name) {
        out.append(name);
    } else {
        append_quoted(out, name);
    }
}

/// Appends the body of the `[global]` section.
fn append_global_body(out: &mut String, g: &ResticProfileGlobal)
    ensures
        final (out)@ == old(out)@ + spec_global_body(*g),
{
    append_opt_u64_line(out, "min-memory", &g.min_memory);
    append_opt_str_line(out, "restic-lock-retry-after", &g.restic_lock_retry_after);
    append_opt_str_line(out, "restic-stale-lock-age", &g.restic_stale_lock_age);
    proof {
        assert(out@ =~= old(out)@ + spec_global_body(*g));
    }
}

/// Appends the body of a `backup` command section.
fn append_backup_body(out: &mut String, b: &ResticProfileProfileBackup)
    ensures
        final (out)@ == old(out)@ + spec_backup_body(*b),
{
    let ghost p1 = flag_line("check-after"@, b.check_after);
    let ghost p2 = flag_line("check-before"@, b.check_before);
    let ghost p3 = flag_line("no-error-on-warning"@, b.no_error_on_warning);
    let ghost p4 = vec_line("source"@, b.source@);
    let ghost p5 = vec_line("exclude"@, b.exclude@);
    let ghost p6 = flag_line("exclude-caches"@, b.exclude_caches);
    let ghost p7 = vec_line("exclude-if-present"@, b.exclude_if_present@);
    let ghost p8 = opt_str_line("exclude-larger-than"@, b.exclude_larger_than);
    let ghost p9 = opt_str_line("host"@, b.host);
    let ghost p10 = vec_line("iexclude"@, b.iexclude@);
    let ghost p11 = vec_line("tag"@, b.tag@);
    append_flag_line(out, "check-after", b.check_after);
    append_flag_line(out, "check-before", b.check_before);
    append_flag_line(out, "no-error-on-warning", b.no_error_on_warning);
    append_vec_line(out, "source", &b.source);
    append_vec_line(out, "exclude", &b.exclude);
    append_flag_line(out, "exclude-caches", b.exclude_caches);
    append_vec_line(out, "exclude-if-present", &b.exclude_if_present);
    append_opt_str_line(out, "exclude-larger-than", &b.exclude_larger_than);
    append_opt_str_line(out, "host", &b.host);
    append_vec_line(out, "iexclude", &b.iexclude);
    append_vec_line(out, "tag", &b.tag);
    proof {
        let o = old(out)@;
        seq_concat_assoc(o, p1, p2);
        seq_concat_assoc(o, p1 + p2, p3);
        seq_concat_assoc(o, p1 + p2 + p3, p4);
        seq_concat_assoc(o, p1 + p2 + p3 + p4, p5);
        seq_concat_assoc(o, p1 + p2 + p3 + p4 + p5, p6);
        seq_concat_assoc(o, p1 + p2 + p3 + p4 + p5 + p6, p7);
        seq_concat_assoc(o, p1 + p2 + p3 + p4 + p5 + p6 + p7, p8);
        seq_concat_assoc(o, p1 + p2 + p3 + p4 + p5 + p6 + p7 + p8, p9);
        seq_concat_assoc(o, p1 + p2 + p3 + p4 + p5 + p6 + p7 + p8 + p9, p10);
        seq_concat_assoc(o, p1 + p2 + p3 + p4 + p5 + p6 + p7 + p8 + p9 + p10, p11);
        assert(out@ == o + spec_backup_body(*b));
    }
}

/// Appends the body of a `retention` command section.
fn append_retention_body(out: &mut String, r: &ResticProfileProfileRetention)
    ensures
        final (out)@ == old(out)@ + spec_retention_body(*r),
{
    let ghost p1 = flag_line("after-backup"@, r.after_backup);
    let ghost p2 = flag_line("before-backup"@, r.before_backup);
    let ghost p3 = bool_line("host"@, r.host);
    let ghost p4 = opt_u32_line("keep-last"@, r.keep_last);
    let ghost p5 = opt_u32_line("keep-hourly"@, r.keep_hourly);
    let ghost p6 = opt_u32_line("keep-daily"@, r.keep_daily);
    let ghost p7 = opt_u32_line("keep-weekly"@, r.keep_weekly);
    let ghost p8 = opt_u32_line("keep-monthly"@, r.keep_monthly);
    let ghost p9 = opt_u32_line("keep-yearly"@, r.keep_yearly);
    let ghost p10 = flag_line("prune"@, r.prune);
    append_flag_line(out, "after-backup", r.after_backup);
    append_flag_line(out, "before-backup", r.before_backup);
    append_bool_line(out, "host", r.host);
    append_opt_u32_line(out, "keep-last", &r.keep_last);
    append_opt_u32_line(out, "keep-hourly", &r.keep_hourly);
    append_opt_u32_line(out, "keep-daily", &r.keep_daily);
    append_opt_u32_line(out, "keep-weekly", &r.keep_weekly);
    append_opt_u32_line(out, "keep-monthly", &r.keep_monthly);
    append_opt_u32_line(out, "keep-yearly", &r.keep_yearly);
    append_flag_line(out, "prune", r.prune);
    proof {
        let o = old(out)@;
        seq_concat_assoc(o, p1, p2);
        seq_concat_assoc(o, p1 + p2, p3);
        seq_concat_assoc(o, p1 + p2 + p3, p4);
        seq_concat_assoc(o, p1 + p2 + p3 + p4, p5);
        seq_concat_assoc(o, p1 + p2 + p3 + p4 + p5, p6);
        seq_concat_assoc(o, p1 + p2 + p3 + p4 + p5 + p6, p7);
        seq_concat_assoc(o, p1 + p2 + p3 + p4 + p5 + p6 + p7, p8);
        seq_concat_assoc(o, p1 + p2 + p3 + p4 + p5 + p6 + p7 + p8, p9);
        seq_concat_assoc(o, p1 + p2 + p3 + p4 + p5 + p6 + p7 + p8 + p9, p10);
        assert(out@ == o + spec_retention_body(*r));
    }
}

/// Appends the scalar lines of one profile section.
fn append_profile_body(out: &mut String, p: &ResticProfileProfile)
    ensures
        final (out)@ == old(out)@ + spec_profile_body(*p),
{
    let ghost p1 = opt_str_line("cacert"@, p.cacert);
    let ghost p2 = opt_str_line("cache-dir"@, p.cache_dir);
    let ghost p3 = opt_str_line("compression"@, p.compression);
    let ghost p4 = opt_str_line("http-user-agent"@, p.http_user_agent);
    let ghost p5 = flag_line("insecure-tls"@, p.insecure_tls);
    let ghost p6 = opt_u64_line("limit-download"@, p.limit_download);
    let ghost p7 = opt_u64_line("limit-upload"@, p.limit_upload);
    let ghost p8 = flag_line("no-cache"@, p.no_cache);
    let ghost p9 = flag_line("no-extra-verify"@, p.no_extra_verify);
    let ghost p10 = opt_u64_line("pack-size"@, p.pack_size);
    let ghost p11 = opt_str_line("password-file"@, p.password_file);
    let ghost p12 = opt_str_line("repository"@, p.repository);
    let ghost p13 = opt_str_line("tls-client-cert"@, p.tls_client_cert);
    let ghost p14 = opt_u8_line("verbose"@, p.verbose);
    append_opt_str_line(out, "cacert", &p.cacert);
    append_opt_str_line(out, "cache-dir", &p.cache_dir);
    append_opt_str_line(out, "compression", &p.compression);
    append_opt_str_line(out, "http-user-agent", &p.http_user_agent);
    append_flag_line(out, "insecure-tls", p.insecure_tls);
    append_opt_u64_line(out, "limit-download", &p.limit_download);
    append_opt_u64_line(out, "limit-upload", &p.limit_upload);
    append_flag_line(out, "no-cache", p.no_cache);
    append_flag_line(out, "no-extra-verify", p.no_extra_verify);
    append_opt_u64_line(out, "pack-size", &p.pack_size);
    append_opt_str_line(out, "password-file", &p.password_file);
    append_opt_str_line(out, "repository", &p.repository);
    append_opt_str_line(out, "tls-client-cert", &p.tls_client_cert);
    append_opt_u8_line(out, "verbose", &p.verbose);
    proof {
        let o = old(out)@;
        seq_concat_assoc(o, p1, p2);
        seq_concat_assoc(o, p1 + p2, p3);
        seq_concat_assoc(o, p1 + p2 + p3, p4);
        seq_concat_assoc(o, p1 + p2 + p3 + p4, p5);
        seq_concat_assoc(o, p1 + p2 + p3 + p4 + p5, p6);
        seq_concat_assoc(o, p1 + p2 + p3 + p4 + p5 + p6, p7);
        seq_concat_assoc(o, p1 + p2 + p3 + p4 + p5 + p6 + p7, p8);
        seq_concat_assoc(o, p1 + p2 + p3 + p4 + p5 + p6 + p7 + p8, p9);
        seq_concat_assoc(o, p1 + p2 + p3 + p4 + p5 + p6 + p7 + p8 + p9, p10);
        seq_concat_assoc(o, p1 + p2 + p3 + p4 + p5 + p6 + p7 + p8 + p9 + p10, p11);
        seq_concat_assoc(o, p1 + p2 + p3 + p4 + p5 + p6 + p7 + p8 + p9 + p10 + p11, p12);
        seq_concat_assoc(o, p1 + p2 + p3 + p4 + p5 + p6 + p7 + p8 + p9 + p10 + p11 + p12, p13);
        seq_concat_assoc(o, p1 + p2 + p3 + p4 + p5 + p6 + p7 + p8 + p9 + p10 + p11 + p12 + p13, p14);
        assert(out@ == o + spec_profile_body(*p));
    }
}

/// Appends one whole profile section.
#[verifier::rlimit(50)]
fn append_profile_section(out: &mut String, name: &str, p: &ResticProfileProfile)
    ensures
        final (out)@ == old(out)@ + spec_profile_section(name@, *p),
{
    let ghost tk = table_key(name@);
    let ghost h1 = header(tk);
    let ghost b1 = spec_profile_body(*p);
    let ghost hb: Seq<char> = match &p.backup {
        Option::None => Seq::empty(),
        Option::Some(b) => header(tk + ".backup"@) + spec_backup_body(*b),
    };
    let ghost hr: Seq<char> = match &p.retention {
        Option::None => Seq::empty(),
        Option::Some(r) => header(tk + ".retention"@) + spec_retention_body(*r),
    };
    out.append("\n[");
    append_table_key(out, name);
    out.append("]\n");
    proof {
        seq_concat_assoc(old(out)@, "\n["@, tk);
        seq_concat_assoc(old(out)@, "\n["@ + tk, "]\n"@);
        assert(out@ == old(out)@ + h1);
    }
    append_profile_body(out, p);
    proof {
        seq_concat_assoc(old(out)@, h1, b1);
        assert(out@ == old(out)@ + (h1 + b1));
    }
    match &p.backup {
        Option::None => {
            proof {
                assert((h1 + b1) + hb =~= h1 + b1);
            }
        },
        Option::Some(b) => {
            let ghost pre = out@;
            out.append("\n[");
            append_table_key(out, name);
            out.append(".backup]\n");
            proof {
                reveal_strlit(".backup]\n");
                reveal_strlit(".backup");
                reveal_strlit("]\n");
                assert(".backup]\n"@ =~= ".backup"@ + "]\n"@);
                seq_concat_assoc(pre, "\n["@, tk);
                seq_concat_assoc(pre, "\n["@ + tk, ".backup"@ + "]\n"@);
                seq_concat_assoc("\n["@ + tk, ".backup"@, "]\n"@);
                seq_concat_assoc("\n["@, tk, ".backup"@);
                assert(out@ == pre + header(tk + ".backup"@));
            }
            append_backup_body(out, b);
            proof {
                seq_concat_assoc(pre, header(tk + ".backup"@), spec_backup_body(*b));
                seq_concat_assoc(old(out)@, h1 + b1, hb);
            }
        },
    }
    proof {
        assert(out@ == old(out)@ + ((h1 + b1) + hb));
    }
    match &p.retention {
        Option::None => {
            proof {
                assert(((h1 + b1) + hb) + hr =~= (h1 + b1) + hb);
            }
        },
        Option::Some(r) => {
            let ghost pre = out@;
            out.append("\n[");
            append_table_key(out, name);
            out.append(".retention]\n");
            proof {
                reveal_strlit(".retention]\n");
                reveal_strlit(".retention");
                reveal_strlit("]\n");
                assert(".retention]\n"@ =~= ".retention"@ + "]\n"@);
                seq_concat_assoc(pre, "\n["@, tk);
                seq_concat_assoc(pre, "\n["@ + tk, ".retention"@ + "]\n"@);
                seq_concat_assoc("\n["@ + tk, ".retention"@, "]\n"@);
                seq_concat_assoc("\n["@, tk, ".retention"@);
                assert(out@ == pre + header(tk + ".retention"@));
            }
            append_retention_body(out, r);
            proof {
                seq_concat_assoc(pre, header(tk + ".retention"@), spec_retention_body(*r));
                seq_concat_assoc(old(out)@, (h1 + b1) + hb, hr);
            }
        },
    }
    proof {
        assert(out@ == old(out)@ + (((h1 + b1) + hb) + hr));
        assert(out@ == old(out)@ + spec_profile_section(name@, *p));
    }
}

/// Renders a whole configuration document. The text is exactly
/// `spec_render_config` of the document: rendering is a pure function of
/// the input.
#[verifier::rlimit(50)]
pub fn render_config(c: &ResticProfileConfig) -> (r: String)
    ensures
        r@ == spec_render_config(*c),
{
    let ghost v1 = str_line("version"@, version_str(c.version));
    let ghost g1: Seq<char> = match &c.global {
        Option::None => Seq::empty(),
        Option::Some(g) => header("global"@) + spec_global_body(*g),
    };
    let mut out = String::new();
    match c.version {
        ResticProfileVersion::V1 => {
            append_str_line(&mut out, "version", "1");
        },
    }
    proof {
        assert(Seq::<char>::empty() + v1 =~= v1);
        assert(out@ == v1);
    }
    match &c.global {
        Option::None => {
            proof {
                assert(v1 + g1 =~= v1);
            }
        },
        Option::Some(g) => {
            out.append("\n[");
            out.append("global");
            out.append("]\n");
            proof {
                seq_concat_assoc(v1, "\n["@, "global"@);
                seq_concat_assoc(v1, "\n["@ + "global"@, "]\n"@);
                assert(out@ == v1 + header("global"@));
            }
            append_global_body(&mut out, g);
            proof {
                seq_concat_assoc(v1, header("global"@), spec_global_body(*g));
                assert(out@ == v1 + g1);
            }
        },
    }
    let ghost head: Seq<char> = v1 + g1;
    proof {
        assert(c.profiles@.take(0int) =~= Seq::<(String, ResticProfileProfile)>::empty());
        assert(head + spec_profiles(c.profiles@.take(0int)) =~= head);
    }
    let mut i: usize = 0;
    while i < c.profiles.len()
        invariant
            0 <= i <= c.profiles.len(),
            head == v1 + g1,
            out@ == head + spec_profiles(c.profiles@.take(i as int)),
        decreases c.profiles.len() - i,
    {
        let pair = &c.profiles[i];
        append_profile_section(&mut out, pair.0.as_str(), &pair.1);
        proof {
            let taken = c.profiles@.take((i + 1) as int);
            assert(taken.drop_last() =~= c.profiles@.take(i as int));
            assert(taken.last() == c.profiles@[i as int]);
            seq_concat_assoc(
                head,
                spec_profiles(c.profiles@.take(i as int)),
                spec_profile_section(c.profiles@[i as int].0@, c.profiles@[i as int].1),
            );
        }
        i = i + 1;
    }
    proof {
        assert(c.profiles@.take(c.profiles@.len() as int) =~= c.profiles@);
        assert(out@ == spec_render_config(*c));
    }
    out
}

} // verus!
