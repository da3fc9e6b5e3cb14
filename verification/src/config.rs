use vstd::prelude::*;

use crate::error::AppError;
use crate::models::Config;
use crate::text::{has_prefix, is_blank, is_blank_text, is_white_space, starts_with};

verus! {

/// The text of an optional string slice.
pub open spec fn opt_text(o: Option<&str>) -> Option<Seq<char>> {
    match o {
        Some(s) => Some(s@),
        None => None,
    }
}

/// The text of an optional string.
pub open spec fn opt_string_text(o: Option<String>) -> Option<Seq<char>> {
    match o {
        Some(s) => Some(s@),
        None => None,
    }
}

// ─── Validation ───────────────────────────────────────────────────────────────

/// The complaint about the first rule that `config` breaks, in the order the
/// rules are checked, or `None` when it keeps them all.
pub open spec fn validation_failure(config: Config) -> Option<Seq<char>> {
    let endpoint = config.shipper.endpoint@;
    if is_blank_text(config.agent.id@) {
        Some("agent.id cannot be empty"@)
    } else if endpoint.len() == 0 {
        Some("shipper.endpoint must not be empty"@)
    } else if !has_prefix(endpoint, "http://"@) && !has_prefix(endpoint, "https://"@) {
        Some("shipper.endpoint must start with \"http://\" or \"https://\""@)
    } else if config.logs.paths@.len() == 0 {
        Some("logs.paths must have at least one entry"@)
    } else if config.metrics.collect_interval_seconds == 0 {
        Some("metrics.collect_interval_seconds must be greater than 0"@)
    } else if config.shipper.ship_interval_seconds == 0 {
        Some("shipper.ship_interval_seconds must be greater than 0"@)
    } else {
        None
    }
}

/// A configuration is accepted exactly when its agent id has a character
/// that is not white space, its endpoint begins with `http://` or
/// `https://`, it names at least one log path and both intervals are above
/// zero; the API key plays no part.
pub proof fn lemma_valid_configs(config: Config)
    ensures
        validation_failure(config) is None <==> {
            &&& exists|i: int|
                0 <= i < config.agent.id@.len() && !is_white_space(#[trigger] config.agent.id@[i])
            &&& ((7 <= config.shipper.endpoint@.len() && config.shipper.endpoint@.subrange(0, 7)
                == "http://"@) || (8 <= config.shipper.endpoint@.len()
                && config.shipper.endpoint@.subrange(0, 8) == "https://"@))
            &&& config.logs.paths@.len() >= 1
            &&& config.metrics.collect_interval_seconds > 0
            &&& config.shipper.ship_interval_seconds > 0
        },
{
    reveal_strlit("http://");
    reveal_strlit("https://");
    let e = config.shipper.endpoint@;
    if has_prefix(e, "http://"@) || has_prefix(e, "https://"@) {
        assert(e.len() > 0);
    }
}

/// `r` is the verdict on `config`: success when it breaks no rule, else a
/// validation error that carries the complaint about the first broken rule.
pub open spec fn is_verdict_on<T>(r: Result<T, AppError>, config: Config) -> bool {
    &&& r is Ok <==> validation_failure(config) is None
    &&& r matches Err(e) ==> (e matches AppError::ConfigValidationError(msg)
        && validation_failure(config) == Some(msg@))
}

fn invalid(msg: &str) -> (e: AppError)
    ensures
        e matches AppError::ConfigValidationError(m) && m@ == msg@,
{
    AppError::ConfigValidationError(String::from_str(msg))
}

/// Checks the rules a configuration must keep, in this order: a non-blank
/// agent id, a non-empty `http://` or `https://` endpoint, at least one log
/// path, a non-zero collection interval and a non-zero shipping interval. The
/// API key is optional.
pub fn validate(config: &Config) -> (r: Result<(), AppError>)
    ensures
        is_verdict_on(r, *config),
{
    if is_blank(config.agent.id.as_str()) {
        return Err(invalid("agent.id cannot be empty"));
    }
    if config.shipper.endpoint.unicode_len() == 0 {
        return Err(invalid("shipper.endpoint must not be empty"));
    }
    if !starts_with(config.shipper.endpoint.as_str(), "http://") && !starts_with(
        config.shipper.endpoint.as_str(),
        "https://",
    ) {
        return Err(invalid("shipper.endpoint must start with \"http://\" or \"https://\""));
    }
    if config.logs.paths.len() == 0 {
        return Err(invalid("logs.paths must have at least one entry"));
    }
    if config.metrics.collect_interval_seconds == 0 {
        return Err(invalid("metrics.collect_interval_seconds must be greater than 0"));
    }
    if config.shipper.ship_interval_seconds == 0 {
        return Err(invalid("shipper.ship_interval_seconds must be greater than 0"));
    }
    Ok(())
}

/// Accepts a freshly parsed configuration when it is valid, unchanged.
pub fn complete(config: Config) -> (r: Result<Config, AppError>)
    ensures
        is_verdict_on(r, config),
        r matches Ok(c) ==> c == config,
{
    match validate(&config) {
        Err(e) => Err(e),
        Ok(()) => Ok(config),
    }
}

/// The report made when the configuration file at `path` cannot be read
/// for `reason`.
pub fn read_failure(path: &str, reason: &str) -> (e: AppError)
    ensures
        e matches AppError::ConfigParseError(m) && m@ == "failed to read "@ + path@ + ": "@
            + reason@,
{
    let mut m = String::from_str("failed to read ");
    m.append(path);
    m.append(": ");
    m.append(reason);
    AppError::ConfigParseError(m)
}

// ─── Discovery ────────────────────────────────────────────────────────────────

/// `dir` and `name` joined by one `/`, as a Unix path join of a relative
/// name does: an empty `dir` gives `name`, a trailing `/` is not doubled.
pub open spec fn join_path_text(dir: Seq<char>, name: Seq<char>) -> Seq<char> {
    if dir.len() == 0 {
        name
    } else if dir.last() == '/' {
        dir + name
    } else {
        dir + "/"@ + name
    }
}

/// Joins a relative `name` onto `dir`.
pub fn join_path(dir: &str, name: &str) -> (r: String)
    ensures
        r@ == join_path_text(dir@, name@),
{
    let len = dir.unicode_len();
    if len == 0 {
        return String::from_str(name);
    }
    let mut r = String::from_str(dir);
    if dir.get_char(len - 1) != '/' {
        r.append("/");
    }
    r.append(name);
    r
}

/// The places searched for the configuration file, first one first: the
/// path given on the command line, `./uplog.toml`, `.uplog.toml` in the
/// home directory (when it is known) and `/etc/uplog/uplog.toml`.
pub open spec fn config_candidates(cli: Option<Seq<char>>, home: Option<Seq<char>>) -> Seq<
    Seq<char>,
> {
    let given = match cli {
        Some(p) => seq![p],
        None => Seq::empty(),
    };
    let user = match home {
        Some(h) => seq![join_path_text(h, ".uplog.toml"@)],
        None => Seq::empty(),
    };
    given + seq!["./uplog.toml"@] + user + seq!["/etc/uplog/uplog.toml"@]
}

/// The search always ends with the system-wide file and always looks in the
/// working directory: the candidates are the command-line path (when given),
/// then `./uplog.toml`, then `.uplog.toml` in the home directory (when
/// known), then `/etc/uplog/uplog.toml`, and nothing else.
pub proof fn lemma_search_order(cli: Option<Seq<char>>, home: Option<Seq<char>>)
    ensures
        ({
            let c = config_candidates(cli, home);
            let n_cli: int = if cli is Some { 1 } else { 0 };
            let n_home: int = if home is Some { 1 } else { 0 };
            &&& c.len() == 2 + n_cli + n_home
            &&& c.last() == "/etc/uplog/uplog.toml"@
            &&& c[n_cli] == "./uplog.toml"@
            &&& c.contains("./uplog.toml"@)
            &&& c.contains("/etc/uplog/uplog.toml"@)
            &&& (cli matches Some(p) ==> c[0] == p)
            &&& (home matches Some(h) ==> c[n_cli + 1] == join_path_text(h, ".uplog.toml"@))
        }),
{
    let c = config_candidates(cli, home);
    let n_cli: int = if cli is Some { 1 } else { 0 };
    assert(c[n_cli] == "./uplog.toml"@);
    assert(c[c.len() - 1] == "/etc/uplog/uplog.toml"@);
}

/// The texts of a list of strings.
pub open spec fn texts(v: Seq<String>) -> Seq<Seq<char>> {
    v.map_values(|s: String| s@)
}

/// Lists the places searched for the configuration file, in search order.
pub fn candidate_paths(cli_path: Option<&str>, home_dir: Option<&str>) -> (r: Vec<String>)
    ensures
        texts(r@) == config_candidates(opt_text(cli_path), opt_text(home_dir)),
{
    let mut r: Vec<String> = Vec::new();
    if let Some(p) = cli_path {
        r.push(String::from_str(p));
    }
    r.push(String::from_str("./uplog.toml"));
    if let Some(h) = home_dir {
        r.push(join_path(h, ".uplog.toml"));
    }
    r.push(String::from_str("/etc/uplog/uplog.toml"));
    assert(texts(r@) =~= config_candidates(opt_text(cli_path), opt_text(home_dir)));
    r
}

/// The first candidate that was found, if any.
pub open spec fn first_found(candidates: Seq<Seq<char>>, found: Seq<bool>) -> Option<Seq<char>>
    decreases candidates.len(),
{
    if candidates.len() == 0 || found.len() == 0 {
        None
    } else if found[0] {
        Some(candidates[0])
    } else {
        first_found(candidates.drop_first(), found.drop_first())
    }
}

/// Picks the first candidate whose flag in `found` is set.
pub fn pick_first(candidates: &Vec<String>, found: &Vec<bool>) -> (r: Option<String>)
    requires
        candidates.len() == found.len(),
    ensures
        opt_string_text(r) == first_found(texts(candidates@), found@),
{
    let mut i: usize = 0;
    assert(texts(candidates@).skip(0) =~= texts(candidates@));
    assert(found@.skip(0) =~= found@);
    while i < candidates.len()
        invariant
            candidates.len() == found.len(),
            i <= candidates.len(),
            first_found(texts(candidates@), found@) == first_found(
                texts(candidates@).skip(i as int),
                found@.skip(i as int),
            ),
        decreases candidates.len() - i,
    {
        let ghost c = texts(candidates@).skip(i as int);
        let ghost f = found@.skip(i as int);
        assert(c.drop_first() =~= texts(candidates@).skip(i + 1));
        assert(f.drop_first() =~= found@.skip(i + 1));
        assert(c[0] == candidates@[i as int]@);
        if found[i] {
            return Some(candidates[i].clone());
        }
        i = i + 1;
    }
    None
}

/// Whether something exists at `path`, by `std::path::Path::exists`. The
/// answer depends on the file system at the moment of the call, so nothing
/// is stated of it.
#[verifier::external_body]
fn path_exists(path: &str) -> bool {
    std::path::Path::new(path).exists()
}

/// Finds the configuration file: the first place, in search order, where
/// something exists. Whatever the file system answered, the result is the
/// first candidate among those found.
pub fn resolve_config_path(cli_path: Option<&str>, home_dir: Option<&str>) -> (r: Option<String>)
    ensures
        exists|found: Seq<bool>|
            found.len() == config_candidates(opt_text(cli_path), opt_text(home_dir)).len()
                && opt_string_text(r) == first_found(
                config_candidates(opt_text(cli_path), opt_text(home_dir)),
                found,
            ),
{
    let candidates = candidate_paths(cli_path, home_dir);
    let mut found: Vec<bool> = Vec::new();
    let mut i: usize = 0;
    while i < candidates.len()
        invariant
            i <= candidates.len(),
            found.len() == i,
        decreases candidates.len() - i,
    {
        found.push(path_exists(candidates[i].as_str()));
        i = i + 1;
    }
    let r = pick_first(&candidates, &found);
    assert(found@.len() == config_candidates(opt_text(cli_path), opt_text(home_dir)).len());
    r
}

/// Finds the configuration file, or reports that there is none: the
/// result is the first candidate among those found, and `ConfigNotFound`
/// when none was found.
pub fn locate_config(cli_path: Option<&str>, home_dir: Option<&str>) -> (r: Result<
    String,
    AppError,
>)
    ensures
        r matches Err(e) ==> e is ConfigNotFound,
        exists|found: Seq<bool>|
            found.len() == config_candidates(opt_text(cli_path), opt_text(home_dir)).len()
                && (match r {
                Ok(p) => Some(p@),
                Err(_) => None,
            }) == first_found(config_candidates(opt_text(cli_path), opt_text(home_dir)), found),
{
    match resolve_config_path(cli_path, home_dir) {
        Some(p) => Ok(p),
        None => Err(AppError::ConfigNotFound),
    }
}

/// `path` with a leading `~` standing alone or before a `/` replaced by the
/// home directory, when that is known; any other path is left as it is.
pub open spec fn expand_home_text(path: Seq<char>, home: Option<Seq<char>>) -> Seq<char> {
    match home {
        Some(h) => if path =~= "~"@ || has_prefix(path, "~/"@) {
            h + path.skip(1)
        } else {
            path
        },
        None => path,
    }
}

/// Expands a leading `~` in a configured path to the home directory.
pub fn expand_home(path: &str, home_dir: Option<&str>) -> (r: String)
    ensures
        r@ == expand_home_text(path@, opt_text(home_dir)),
{
    match home_dir {
        None => String::from_str(path),
        Some(h) => {
            if starts_with(path, "~/") || (path.unicode_len() == 1 && starts_with(path, "~")) {
                proof {
                    reveal_strlit("~");
                    reveal_strlit("~/");
                }
                let len = path.unicode_len();
                let rest = path.substring_char(1, len);
                let mut r = String::from_str(h);
                r.append(rest);
                assert(rest@ =~= path@.skip(1));
                r
            } else {
                proof {
                    reveal_strlit("~");
                    reveal_strlit("~/");
                    if path@ =~= "~"@ {
                        assert(path@.subrange(0, 1) =~= "~"@);
                    }
                }
                String::from_str(path)
            }
        },
    }
}

} // verus!
