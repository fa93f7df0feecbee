//! Warden (runtime security) configuration.
use crate::text::views;
use vstd::prelude::*;

verus! {

/// Configuration for the Warden runtime security system.
#[derive(Clone, Debug)]
pub struct WardenConfig {
    /// Whether warden is enabled
    pub enabled: bool,
    /// Volume mounts for the warden container
    pub volumes: Vec<String>,
}

/// A volume specification: `source:target`, followed by `:ro` when the
/// mount is read-only.
pub open spec fn volume(source: Seq<char>, target: Seq<char>, read_only: bool) -> Seq<char> {
    source + ":"@ + target + if read_only {
        ":ro"@
    } else {
        Seq::<char>::empty()
    }
}

/// The host path `~/rest`.
pub open spec fn home_path(rest: Seq<char>) -> Seq<char> {
    "~/"@ + rest
}

/// The mount of `~/rest` on the host at `/home/agent/rest` in the container.
pub open spec fn home_entry(rest: Seq<char>, read_only: bool) -> (Seq<char>, Seq<char>, bool) {
    (home_path(rest), "/home/agent/"@ + rest, read_only)
}

/// The default mounts of the stakpak agent container, each as its source,
/// its target and whether it is read-only.
pub open spec fn default_mount_entries() -> Seq<(Seq<char>, Seq<char>, bool)> {
    seq![
        // Stakpak config & credentials
        home_entry(".stakpak/config.toml"@, true),
        home_entry(".stakpak/auth.toml"@, true),
        home_entry(".stakpak/data/local.db"@, false),
        home_entry(".agent-board/data.db"@, false),
        // Working directory
        ("./"@, "/agent"@, true),
        ("./.stakpak"@, "/agent/.stakpak"@, false),
        // AWS — config read-only, SSO/STS cache writable for token refresh
        home_entry(".aws/config"@, true),
        home_entry(".aws/credentials"@, true),
        home_entry(".aws/sso"@, false),
        home_entry(".aws/cli"@, false),
        // GCP — credential files read-only, cache/logs/db writable for gcloud to function
        home_entry(".config/gcloud/active_config"@, true),
        home_entry(".config/gcloud/configurations"@, true),
        home_entry(".config/gcloud/application_default_credentials.json"@, true),
        home_entry(".config/gcloud/credentials.db"@, true),
        home_entry(".config/gcloud/access_tokens.db"@, true),
        home_entry(".config/gcloud/logs"@, false),
        home_entry(".config/gcloud/cache"@, false),
        // Azure — config read-only, MSAL token cache and session writable
        home_entry(".azure/config"@, true),
        home_entry(".azure/clouds.config"@, true),
        home_entry(".azure/azureProfile.json"@, true),
        home_entry(".azure/msal_token_cache.json"@, false),
        home_entry(".azure/msal_http_cache.bin"@, false),
        home_entry(".azure/logs"@, false),
        // DigitalOcean & Kubernetes
        home_entry(".digitalocean"@, true),
        home_entry(".kube"@, true),
        // SSH — config and keys read-only (useful for host aliases and remote connections)
        home_entry(".ssh"@, true),
        // Aqua tool cache (named volume — persists downloaded CLIs across runs)
        ("stakpak-aqua-cache"@, "/home/agent/.local/share/aquaproj-aqua"@, false),
    ]
}

/// The default volume mounts of the stakpak agent container, as volume
/// specifications.
pub open spec fn default_mounts() -> Seq<Seq<char>> {
    default_mount_entries().map_values(|e: (Seq<char>, Seq<char>, bool)| volume(e.0, e.1, e.2))
}

/// The volume specification of a mount.
fn volume_string(source: &str, target: &str, read_only: bool) -> (res: String)
    ensures
        res@ == volume(source@, target@, read_only),
{
    let spec_text = source.to_string().concat(":").concat(target);
    if read_only {
        spec_text.concat(":ro")
    } else {
        assert(spec_text@ + Seq::<char>::empty() =~= spec_text@);
        spec_text
    }
}

/// The volume specification of the mount of `~/rest` at `/home/agent/rest`.
fn home_volume(rest: &str, read_only: bool) -> (res: String)
    ensures
        res@ == volume(home_path(rest@), "/home/agent/"@ + rest@, read_only),
{
    let source = "~/".to_string().concat(rest);
    let target = "/home/agent/".to_string().concat(rest);
    volume_string(source.as_str(), target.as_str(), read_only)
}

/// Default volume mounts for the stakpak agent container.
///
/// Single source of truth for every path the container needs.
pub fn stakpak_agent_default_mounts() -> (res: Vec<String>)
    ensures
        views(res@) == default_mounts(),
{
    let res = vec![
        // Stakpak config & credentials
        home_volume(".stakpak/config.toml", true),
        home_volume(".stakpak/auth.toml", true),
        home_volume(".stakpak/data/local.db", false),
        home_volume(".agent-board/data.db", false),
        // Working directory
        volume_string("./", "/agent", true),
        volume_string("./.stakpak", "/agent/.stakpak", false),
        // AWS — config read-only, SSO/STS cache writable for token refresh
        home_volume(".aws/config", true),
        home_volume(".aws/credentials", true),
        home_volume(".aws/sso", false),
        home_volume(".aws/cli", false),
        // GCP — credential files read-only, cache/logs/db writable for gcloud to function
        home_volume(".config/gcloud/active_config", true),
        home_volume(".config/gcloud/configurations", true),
        home_volume(".config/gcloud/application_default_credentials.json", true),
        home_volume(".config/gcloud/credentials.db", true),
        home_volume(".config/gcloud/access_tokens.db", true),
        home_volume(".config/gcloud/logs", false),
        home_volume(".config/gcloud/cache", false),
        // Azure — config read-only, MSAL token cache and session writable
        home_volume(".azure/config", true),
        home_volume(".azure/clouds.config", true),
        home_volume(".azure/azureProfile.json", true),
        home_volume(".azure/msal_token_cache.json", false),
        home_volume(".azure/msal_http_cache.bin", false),
        home_volume(".azure/logs", false),
        // DigitalOcean & Kubernetes
        home_volume(".digitalocean", true),
        home_volume(".kube", true),
        // SSH — config and keys read-only (useful for host aliases and remote connections)
        home_volume(".ssh", true),
        // Aqua tool cache (named volume — persists downloaded CLIs across runs)
        volume_string("stakpak-aqua-cache", "/home/agent/.local/share/aquaproj-aqua", false),
    ];
    assert(views(res@) =~= default_mounts());
    res
}

impl WardenConfig {
    /// The readonly profile: warden enabled, with the default mounts.
    pub fn readonly_profile() -> (res: Self)
        ensures
            res.enabled,
            views(res.volumes@) == default_mounts(),
    {
        WardenConfig { enabled: true, volumes: stakpak_agent_default_mounts() }
    }
}

// ---------------------------------------------------------------------------
// Laws of the default mounts
// ---------------------------------------------------------------------------

/// The fields of `s` after the partial field `cur`, split at every `':'`
/// as `str::split(':')` splits them.
pub open spec fn fields_from(s: Seq<char>, cur: Seq<char>) -> Seq<Seq<char>>
    decreases s.len(),
{
    if s.len() == 0 {
        seq![cur]
    } else if s[0] == ':' {
        seq![cur] + fields_from(s.drop_first(), seq![])
    } else {
        fields_from(s.drop_first(), cur.push(s[0]))
    }
}

/// The `':'`-separated fields of `s`.
pub open spec fn colon_fields(s: Seq<char>) -> Seq<Seq<char>> {
    fields_from(s, seq![])
}

/// Whether `s` holds no `':'`.
pub open spec fn no_colon(s: Seq<char>) -> bool {
    forall|i: int| 0 <= i < s.len() ==> s[i] != ':'
}

/// Whether `s` holds no `':'` from position `k` on, checked one position
/// at a time.
pub open spec fn colon_free_from(s: Seq<char>, k: int) -> bool
    decreases s.len() - k,
{
    if k < 0 || k >= s.len() {
        true
    } else {
        s[k] != ':' && colon_free_from(s, k + 1)
    }
}

proof fn lemma_colon_free_from(s: Seq<char>, k: int)
    requires
        0 <= k,
        colon_free_from(s, k),
    ensures
        forall|i: int| k <= i < s.len() ==> s[i] != ':',
    decreases s.len() - k,
{
    if k < s.len() {
        lemma_colon_free_from(s, k + 1);
    }
}

/// Whether `p` holds of every element of `s` from position `k` on, checked
/// one position at a time.
pub open spec fn all_from<A>(s: Seq<A>, p: spec_fn(A) -> bool, k: int) -> bool
    decreases s.len() - k,
{
    if k < 0 || k >= s.len() {
        true
    } else {
        p(s[k]) && all_from(s, p, k + 1)
    }
}

proof fn lemma_all_from<A>(s: Seq<A>, p: spec_fn(A) -> bool, k: int)
    requires
        0 <= k,
        all_from(s, p, k),
    ensures
        forall|i: int| k <= i < s.len() ==> p(#[trigger] s[i]),
    decreases s.len() - k,
{
    if k < s.len() {
        lemma_all_from(s, p, k + 1);
    }
}

/// Whether `x` differs from every element of `s` from position `k` on.
pub open spec fn differs_from_all(x: Seq<char>, s: Seq<Seq<char>>, k: int) -> bool
    decreases s.len() - k,
{
    if k < 0 || k >= s.len() {
        true
    } else {
        (x.len() != s[k].len() || x != s[k]) && differs_from_all(x, s, k + 1)
    }
}

/// Whether the elements of `s` from position `k` on are pairwise different.
pub open spec fn distinct_from(s: Seq<Seq<char>>, k: int) -> bool
    decreases s.len() - k,
{
    if k < 0 || k >= s.len() {
        true
    } else {
        differs_from_all(s[k], s, k + 1) && distinct_from(s, k + 1)
    }
}

proof fn lemma_differs_from_all(x: Seq<char>, s: Seq<Seq<char>>, k: int)
    requires
        0 <= k,
        differs_from_all(x, s, k),
    ensures
        forall|j: int| k <= j < s.len() ==> x != s[j],
    decreases s.len() - k,
{
    if k < s.len() {
        lemma_differs_from_all(x, s, k + 1);
    }
}

proof fn lemma_distinct_from(s: Seq<Seq<char>>, k: int)
    requires
        0 <= k,
        distinct_from(s, k),
    ensures
        forall|i: int, j: int| k <= i < j < s.len() ==> s[i] != s[j],
    decreases s.len() - k,
{
    if k < s.len() {
        lemma_differs_from_all(s[k], s, k + 1);
        lemma_distinct_from(s, k + 1);
    }
}

/// Splitting skips over a piece with no `':'`, adding it to the current
/// field.
proof fn lemma_fields_skip_piece(a: Seq<char>, rest: Seq<char>, cur: Seq<char>)
    requires
        no_colon(a),
    ensures
        fields_from(a + rest, cur) == fields_from(rest, cur + a),
    decreases a.len(),
{
    if a.len() == 0 {
        assert(a + rest =~= rest);
        assert(cur + a =~= cur);
    } else {
        let s = a + rest;
        assert(s[0] == a[0]);
        assert(s.drop_first() =~= a.drop_first() + rest);
        lemma_fields_skip_piece(a.drop_first(), rest, cur.push(a[0]));
        assert(cur.push(a[0]) + a.drop_first() =~= cur + a);
    }
}

/// The fields of a volume specification whose source and target hold no
/// `':'` are the source, the target, and `ro` when read-only.
proof fn lemma_volume_fields(source: Seq<char>, target: Seq<char>, read_only: bool)
    requires
        no_colon(source),
        no_colon(target),
    ensures
        colon_fields(volume(source, target, read_only)) == seq![source, target] + if read_only {
            seq!["ro"@]
        } else {
            Seq::<Seq<char>>::empty()
        },
{
    reveal_strlit(":");
    reveal_strlit(":ro");
    reveal_strlit("ro");
    let suffix = if read_only {
        ":ro"@
    } else {
        Seq::<char>::empty()
    };
    let after = ":"@ + (target + suffix);
    assert(volume(source, target, read_only) =~= source + after);
    lemma_fields_skip_piece(source, after, seq![]);
    assert(Seq::<char>::empty() + source =~= source);
    assert(after[0] == ':');
    assert(after.drop_first() =~= target + suffix);
    lemma_fields_skip_piece(target, suffix, seq![]);
    assert(Seq::<char>::empty() + target =~= target);
    if read_only {
        assert(suffix[0] == ':');
        assert(suffix.drop_first() =~= "ro"@ + Seq::<char>::empty());
        assert(no_colon("ro"@));
        lemma_fields_skip_piece("ro"@, Seq::<char>::empty(), seq![]);
        assert(Seq::<char>::empty() + "ro"@ =~= "ro"@);
        assert(colon_fields(volume(source, target, read_only)) =~= seq![source, target, "ro"@]);
    } else {
        assert(colon_fields(volume(source, target, read_only)) =~= seq![source, target]);
    }
}

/// Whether a mount entry's source is not empty and holds no `':'`, and its
/// target is an absolute path with no `':'`.
pub open spec fn entry_well_formed(e: (Seq<char>, Seq<char>, bool)) -> bool {
    &&& e.0.len() > 0
    &&& no_colon(e.0)
    &&& e.1.len() > 0
    &&& e.1[0] == '/'
    &&& no_colon(e.1)
}

proof fn lemma_default_entries_well_formed()
    ensures
        forall|i: int|
            0 <= i < default_mount_entries().len() ==> entry_well_formed(
                #[trigger] default_mount_entries()[i],
            ),
{
    let t = default_mount_entries();
    reveal_strlit("./");
    reveal_strlit("./.stakpak");
    reveal_strlit(".agent-board/data.db");
    reveal_strlit(".aws/cli");
    reveal_strlit(".aws/config");
    reveal_strlit(".aws/credentials");
    reveal_strlit(".aws/sso");
    reveal_strlit(".azure/azureProfile.json");
    reveal_strlit(".azure/clouds.config");
    reveal_strlit(".azure/config");
    reveal_strlit(".azure/logs");
    reveal_strlit(".azure/msal_http_cache.bin");
    reveal_strlit(".azure/msal_token_cache.json");
    reveal_strlit(".config/gcloud/access_tokens.db");
    reveal_strlit(".config/gcloud/active_config");
    reveal_strlit(".config/gcloud/application_default_credentials.json");
    reveal_strlit(".config/gcloud/cache");
    reveal_strlit(".config/gcloud/configurations");
    reveal_strlit(".config/gcloud/credentials.db");
    reveal_strlit(".config/gcloud/logs");
    reveal_strlit(".digitalocean");
    reveal_strlit(".kube");
    reveal_strlit(".ssh");
    reveal_strlit(".stakpak/auth.toml");
    reveal_strlit(".stakpak/config.toml");
    reveal_strlit(".stakpak/data/local.db");
    reveal_strlit("/agent");
    reveal_strlit("/agent/.stakpak");
    reveal_strlit("/home/agent/");
    reveal_strlit("/home/agent/.local/share/aquaproj-aqua");
    reveal_strlit(":");
    reveal_strlit(":ro");
    reveal_strlit("ro");
    reveal_strlit("stakpak-aqua-cache");
    reveal_strlit("~/");
    assert(no_colon("./"@)) by {
        reveal_strlit("./");
        reveal_with_fuel(colon_free_from, 3);
        lemma_colon_free_from("./"@, 0);
    }
    assert(no_colon("./.stakpak"@)) by {
        reveal_strlit("./.stakpak");
        reveal_with_fuel(colon_free_from, 11);
        lemma_colon_free_from("./.stakpak"@, 0);
    }
    assert(no_colon(".agent-board/data.db"@)) by {
        reveal_strlit(".agent-board/data.db");
        reveal_with_fuel(colon_free_from, 21);
        lemma_colon_free_from(".agent-board/data.db"@, 0);
    }
    assert(no_colon(".aws/cli"@)) by {
        reveal_strlit(".aws/cli");
        reveal_with_fuel(colon_free_from, 9);
        lemma_colon_free_from(".aws/cli"@, 0);
    }
    assert(no_colon(".aws/config"@)) by {
        reveal_strlit(".aws/config");
        reveal_with_fuel(colon_free_from, 12);
        lemma_colon_free_from(".aws/config"@, 0);
    }
    assert(no_colon(".aws/credentials"@)) by {
        reveal_strlit(".aws/credentials");
        reveal_with_fuel(colon_free_from, 17);
        lemma_colon_free_from(".aws/credentials"@, 0);
    }
    assert(no_colon(".aws/sso"@)) by {
        reveal_strlit(".aws/sso");
        reveal_with_fuel(colon_free_from, 9);
        lemma_colon_free_from(".aws/sso"@, 0);
    }
    assert(no_colon(".azure/azureProfile.json"@)) by {
        reveal_strlit(".azure/azureProfile.json");
        reveal_with_fuel(colon_free_from, 25);
        lemma_colon_free_from(".azure/azureProfile.json"@, 0);
    }
    assert(no_colon(".azure/clouds.config"@)) by {
        reveal_strlit(".azure/clouds.config");
        reveal_with_fuel(colon_free_from, 21);
        lemma_colon_free_from(".azure/clouds.config"@, 0);
    }
    assert(no_colon(".azure/config"@)) by {
        reveal_strlit(".azure/config");
        reveal_with_fuel(colon_free_from, 14);
        lemma_colon_free_from(".azure/config"@, 0);
    }
    assert(no_colon(".azure/logs"@)) by {
        reveal_strlit(".azure/logs");
        reveal_with_fuel(colon_free_from, 12);
        lemma_colon_free_from(".azure/logs"@, 0);
    }
    assert(no_colon(".azure/msal_http_cache.bin"@)) by {
        reveal_strlit(".azure/msal_http_cache.bin");
        reveal_with_fuel(colon_free_from, 27);
        lemma_colon_free_from(".azure/msal_http_cache.bin"@, 0);
    }
    assert(no_colon(".azure/msal_token_cache.json"@)) by {
        reveal_strlit(".azure/msal_token_cache.json");
        reveal_with_fuel(colon_free_from, 29);
        lemma_colon_free_from(".azure/msal_token_cache.json"@, 0);
    }
    assert(no_colon(".config/gcloud/access_tokens.db"@)) by {
        reveal_strlit(".config/gcloud/access_tokens.db");
        reveal_with_fuel(colon_free_from, 32);
        lemma_colon_free_from(".config/gcloud/access_tokens.db"@, 0);
    }
    assert(no_colon(".config/gcloud/active_config"@)) by {
        reveal_strlit(".config/gcloud/active_config");
        reveal_with_fuel(colon_free_from, 29);
        lemma_colon_free_from(".config/gcloud/active_config"@, 0);
    }
    assert(no_colon(".config/gcloud/application_default_credentials.json"@)) by {
        reveal_strlit(".config/gcloud/application_default_credentials.json");
        reveal_with_fuel(colon_free_from, 52);
        lemma_colon_free_from(".config/gcloud/application_default_credentials.json"@, 0);
    }
    assert(no_colon(".config/gcloud/cache"@)) by {
        reveal_strlit(".config/gcloud/cache");
        reveal_with_fuel(colon_free_from, 21);
        lemma_colon_free_from(".config/gcloud/cache"@, 0);
    }
    assert(no_colon(".config/gcloud/configurations"@)) by {
        reveal_strlit(".config/gcloud/configurations");
        reveal_with_fuel(colon_free_from, 30);
        lemma_colon_free_from(".config/gcloud/configurations"@, 0);
    }
    assert(no_colon(".config/gcloud/credentials.db"@)) by {
        reveal_strlit(".config/gcloud/credentials.db");
        reveal_with_fuel(colon_free_from, 30);
        lemma_colon_free_from(".config/gcloud/credentials.db"@, 0);
    }
    assert(no_colon(".config/gcloud/logs"@)) by {
        reveal_strlit(".config/gcloud/logs");
        reveal_with_fuel(colon_free_from, 20);
        lemma_colon_free_from(".config/gcloud/logs"@, 0);
    }
    assert(no_colon(".digitalocean"@)) by {
        reveal_strlit(".digitalocean");
        reveal_with_fuel(colon_free_from, 14);
        lemma_colon_free_from(".digitalocean"@, 0);
    }
    assert(no_colon(".kube"@)) by {
        reveal_strlit(".kube");
        reveal_with_fuel(colon_free_from, 6);
        lemma_colon_free_from(".kube"@, 0);
    }
    assert(no_colon(".ssh"@)) by {
        reveal_strlit(".ssh");
        reveal_with_fuel(colon_free_from, 5);
        lemma_colon_free_from(".ssh"@, 0);
    }
    assert(no_colon(".stakpak/auth.toml"@)) by {
        reveal_strlit(".stakpak/auth.toml");
        reveal_with_fuel(colon_free_from, 19);
        lemma_colon_free_from(".stakpak/auth.toml"@, 0);
    }
    assert(no_colon(".stakpak/config.toml"@)) by {
        reveal_strlit(".stakpak/config.toml");
        reveal_with_fuel(colon_free_from, 21);
        lemma_colon_free_from(".stakpak/config.toml"@, 0);
    }
    assert(no_colon(".stakpak/data/local.db"@)) by {
        reveal_strlit(".stakpak/data/local.db");
        reveal_with_fuel(colon_free_from, 23);
        lemma_colon_free_from(".stakpak/data/local.db"@, 0);
    }
    assert(no_colon("/agent"@)) by {
        reveal_strlit("/agent");
        reveal_with_fuel(colon_free_from, 7);
        lemma_colon_free_from("/agent"@, 0);
    }
    assert(no_colon("/agent/.stakpak"@)) by {
        reveal_strlit("/agent/.stakpak");
        reveal_with_fuel(colon_free_from, 16);
        lemma_colon_free_from("/agent/.stakpak"@, 0);
    }
    assert(no_colon("/home/agent/"@)) by {
        reveal_strlit("/home/agent/");
        reveal_with_fuel(colon_free_from, 13);
        lemma_colon_free_from("/home/agent/"@, 0);
    }
    assert(no_colon("/home/agent/.local/share/aquaproj-aqua"@)) by {
        reveal_strlit("/home/agent/.local/share/aquaproj-aqua");
        reveal_with_fuel(colon_free_from, 39);
        lemma_colon_free_from("/home/agent/.local/share/aquaproj-aqua"@, 0);
    }
    assert(no_colon("stakpak-aqua-cache"@)) by {
        reveal_strlit("stakpak-aqua-cache");
        reveal_with_fuel(colon_free_from, 19);
        lemma_colon_free_from("stakpak-aqua-cache"@, 0);
    }
    assert(no_colon("~/"@)) by {
        reveal_strlit("~/");
        reveal_with_fuel(colon_free_from, 3);
        lemma_colon_free_from("~/"@, 0);
    }

    let p = |e: (Seq<char>, Seq<char>, bool)| entry_well_formed(e);
    assert(all_from(t, p, 0)) by {
        reveal_with_fuel(all_from, 28);
    }
    lemma_all_from(t, p, 0);
}

/// Every default mount is a volume specification `source:target` or
/// `source:target:ro`: split at `':'` it has two fields, or three with `ro`
/// last exactly when the mount is read-only; the source is not empty and
/// the target is an absolute path.
pub proof fn lemma_default_mounts_are_volumes()
    ensures
        forall|i: int|
            0 <= i < default_mounts().len() ==> {
                let p = #[trigger] colon_fields(default_mounts()[i]);
                &&& p.len() == 2 || (p.len() == 3 && p[2] == "ro"@)
                &&& p[0].len() > 0
                &&& p[1].len() > 0
                &&& p[1][0] == '/'
                &&& p[0] == default_mount_entries()[i].0
                &&& p[1] == default_mount_entries()[i].1
                &&& p.len() == 3 <==> default_mount_entries()[i].2
            },
{
    lemma_default_entries_well_formed();
    assert forall|i: int| 0 <= i < default_mounts().len() implies {
        let p = #[trigger] colon_fields(default_mounts()[i]);
        &&& p.len() == 2 || (p.len() == 3 && p[2] == "ro"@)
        &&& p[0].len() > 0
        &&& p[1].len() > 0
        &&& p[1][0] == '/'
        &&& p[0] == default_mount_entries()[i].0
        &&& p[1] == default_mount_entries()[i].1
        &&& p.len() == 3 <==> default_mount_entries()[i].2
    } by {
        let e = default_mount_entries()[i];
        assert(entry_well_formed(e));
        lemma_volume_fields(e.0, e.1, e.2);
    }
}

/// The sources of the default mounts.
pub open spec fn mount_sources() -> Seq<Seq<char>> {
    default_mount_entries().map_values(|e: (Seq<char>, Seq<char>, bool)| e.0)
}

/// The targets of the default mounts.
pub open spec fn mount_targets() -> Seq<Seq<char>> {
    default_mount_entries().map_values(|e: (Seq<char>, Seq<char>, bool)| e.1)
}

/// No two default mounts share a source, and no two share a target.
pub proof fn lemma_default_mounts_distinct()
    ensures
        mount_sources().no_duplicates(),
        mount_targets().no_duplicates(),
{
    let t = default_mount_entries();
    reveal_strlit("./");
    reveal_strlit("./.stakpak");
    reveal_strlit(".agent-board/data.db");
    reveal_strlit(".aws/cli");
    reveal_strlit(".aws/config");
    reveal_strlit(".aws/credentials");
    reveal_strlit(".aws/sso");
    reveal_strlit(".azure/azureProfile.json");
    reveal_strlit(".azure/clouds.config");
    reveal_strlit(".azure/config");
    reveal_strlit(".azure/logs");
    reveal_strlit(".azure/msal_http_cache.bin");
    reveal_strlit(".azure/msal_token_cache.json");
    reveal_strlit(".config/gcloud/access_tokens.db");
    reveal_strlit(".config/gcloud/active_config");
    reveal_strlit(".config/gcloud/application_default_credentials.json");
    reveal_strlit(".config/gcloud/cache");
    reveal_strlit(".config/gcloud/configurations");
    reveal_strlit(".config/gcloud/credentials.db");
    reveal_strlit(".config/gcloud/logs");
    reveal_strlit(".digitalocean");
    reveal_strlit(".kube");
    reveal_strlit(".ssh");
    reveal_strlit(".stakpak/auth.toml");
    reveal_strlit(".stakpak/config.toml");
    reveal_strlit(".stakpak/data/local.db");
    reveal_strlit("/agent");
    reveal_strlit("/agent/.stakpak");
    reveal_strlit("/home/agent/");
    reveal_strlit("/home/agent/.local/share/aquaproj-aqua");
    reveal_strlit(":");
    reveal_strlit(":ro");
    reveal_strlit("ro");
    reveal_strlit("stakpak-aqua-cache");
    reveal_strlit("~/");
    assert(t[0].0[3] != t[3].0[3]);
    assert(t[0].0[3] != t[16].0[3]);
    assert(t[0].0[3] != t[18].0[3]);
    assert(t[3].0[3] != t[16].0[3]);
    assert(t[3].0[4] != t[18].0[4]);
    assert(t[5].0[0] != t[8].0[0]);
    assert(t[5].0[0] != t[9].0[0]);
    assert(t[6].0[4] != t[22].0[4]);
    assert(t[7].0[0] != t[26].0[0]);
    assert(t[8].0[7] != t[9].0[7]);
    assert(t[10].0[3] != t[20].0[3]);
    assert(t[11].0[18] != t[13].0[18]);
    assert(t[16].0[3] != t[18].0[3]);
    assert(t[17].0[3] != t[23].0[3]);
    assert(t[0].1[13] != t[3].1[13]);
    assert(t[0].1[13] != t[16].1[13]);
    assert(t[0].1[13] != t[18].1[13]);
    assert(t[3].1[13] != t[16].1[13]);
    assert(t[3].1[14] != t[18].1[14]);
    assert(t[6].1[14] != t[22].1[14]);
    assert(t[8].1[17] != t[9].1[17]);
    assert(t[10].1[13] != t[20].1[13]);
    assert(t[11].1[28] != t[13].1[28]);
    assert(t[16].1[13] != t[18].1[13]);
    assert(t[17].1[13] != t[23].1[13]);
    assert(t[21].1[13] != t[26].1[13]);
    assert(distinct_from(mount_sources(), 0)) by {
        reveal_with_fuel(distinct_from, 28);
        reveal_with_fuel(differs_from_all, 28);
    }
    assert(distinct_from(mount_targets(), 0)) by {
        reveal_with_fuel(distinct_from, 28);
        reveal_with_fuel(differs_from_all, 28);
    }
    lemma_distinct_from(mount_sources(), 0);
    lemma_distinct_from(mount_targets(), 0);
}

/// Whether `s` is under the home directory: it begins with `~/`.
pub open spec fn under_home(s: Seq<char>) -> bool {
    s.len() >= 2 && s.take(2) == "~/"@
}

/// Where a mount's source leads its target: `~/path` to `/home/agent/path`,
/// `./` to `/agent`, `./.stakpak` to `/agent/.stakpak`; any other source is
/// the named volume `stakpak-aqua-cache`.
pub open spec fn target_follows_source(e: (Seq<char>, Seq<char>, bool)) -> bool {
    &&& under_home(e.0) ==> e.1 == "/home/agent/"@ + e.0.skip(2)
    &&& e.0 == "./"@ ==> e.1 == "/agent"@
    &&& e.0 == "./.stakpak"@ ==> e.1 == "/agent/.stakpak"@
    &&& under_home(e.0) || e.0 == "./"@ || e.0 == "./.stakpak"@ || e.0 == "stakpak-aqua-cache"@
}

/// Every default mount of a path under the home directory, `~/path`, mounts
/// it at `/home/agent/path`; the working directory `./` is mounted at
/// `/agent` and `./.stakpak` at `/agent/.stakpak`; the one other source is
/// the named volume `stakpak-aqua-cache`.
pub proof fn lemma_default_mount_targets()
    ensures
        forall|i: int|
            0 <= i < default_mount_entries().len() ==> target_follows_source(
                #[trigger] default_mount_entries()[i],
            ),
{
    let t = default_mount_entries();
    reveal_strlit("./");
    reveal_strlit("./.stakpak");
    reveal_strlit(".agent-board/data.db");
    reveal_strlit(".aws/cli");
    reveal_strlit(".aws/config");
    reveal_strlit(".aws/credentials");
    reveal_strlit(".aws/sso");
    reveal_strlit(".azure/azureProfile.json");
    reveal_strlit(".azure/clouds.config");
    reveal_strlit(".azure/config");
    reveal_strlit(".azure/logs");
    reveal_strlit(".azure/msal_http_cache.bin");
    reveal_strlit(".azure/msal_token_cache.json");
    reveal_strlit(".config/gcloud/access_tokens.db");
    reveal_strlit(".config/gcloud/active_config");
    reveal_strlit(".config/gcloud/application_default_credentials.json");
    reveal_strlit(".config/gcloud/cache");
    reveal_strlit(".config/gcloud/configurations");
    reveal_strlit(".config/gcloud/credentials.db");
    reveal_strlit(".config/gcloud/logs");
    reveal_strlit(".digitalocean");
    reveal_strlit(".kube");
    reveal_strlit(".ssh");
    reveal_strlit(".stakpak/auth.toml");
    reveal_strlit(".stakpak/config.toml");
    reveal_strlit(".stakpak/data/local.db");
    reveal_strlit("/agent");
    reveal_strlit("/agent/.stakpak");
    reveal_strlit("/home/agent/");
    reveal_strlit("/home/agent/.local/share/aquaproj-aqua");
    reveal_strlit(":");
    reveal_strlit(":ro");
    reveal_strlit("ro");
    reveal_strlit("stakpak-aqua-cache");
    reveal_strlit("~/");
    assert(t[0].0.take(2) =~= "~/"@);
    assert(t[0].0.skip(2) =~= ".stakpak/config.toml"@);
    assert(t[1].0.take(2) =~= "~/"@);
    assert(t[1].0.skip(2) =~= ".stakpak/auth.toml"@);
    assert(t[2].0.take(2) =~= "~/"@);
    assert(t[2].0.skip(2) =~= ".stakpak/data/local.db"@);
    assert(t[3].0.take(2) =~= "~/"@);
    assert(t[3].0.skip(2) =~= ".agent-board/data.db"@);
    assert(!under_home(t[4].0)) by {
        if under_home(t[4].0) {
            assert(t[4].0.take(2)[0] == t[4].0[0]);
        }
    }
    assert(!under_home(t[5].0)) by {
        if under_home(t[5].0) {
            assert(t[5].0.take(2)[0] == t[5].0[0]);
        }
    }
    assert(t[6].0.take(2) =~= "~/"@);
    assert(t[6].0.skip(2) =~= ".aws/config"@);
    assert(t[7].0.take(2) =~= "~/"@);
    assert(t[7].0.skip(2) =~= ".aws/credentials"@);
    assert(t[8].0.take(2) =~= "~/"@);
    assert(t[8].0.skip(2) =~= ".aws/sso"@);
    assert(t[9].0.take(2) =~= "~/"@);
    assert(t[9].0.skip(2) =~= ".aws/cli"@);
    assert(t[10].0.take(2) =~= "~/"@);
    assert(t[10].0.skip(2) =~= ".config/gcloud/active_config"@);
    assert(t[11].0.take(2) =~= "~/"@);
    assert(t[11].0.skip(2) =~= ".config/gcloud/configurations"@);
    assert(t[12].0.take(2) =~= "~/"@);
    assert(t[12].0.skip(2) =~= ".config/gcloud/application_default_credentials.json"@);
    assert(t[13].0.take(2) =~= "~/"@);
    assert(t[13].0.skip(2) =~= ".config/gcloud/credentials.db"@);
    assert(t[14].0.take(2) =~= "~/"@);
    assert(t[14].0.skip(2) =~= ".config/gcloud/access_tokens.db"@);
    assert(t[15].0.take(2) =~= "~/"@);
    assert(t[15].0.skip(2) =~= ".config/gcloud/logs"@);
    assert(t[16].0.take(2) =~= "~/"@);
    assert(t[16].0.skip(2) =~= ".config/gcloud/cache"@);
    assert(t[17].0.take(2) =~= "~/"@);
    assert(t[17].0.skip(2) =~= ".azure/config"@);
    assert(t[18].0.take(2) =~= "~/"@);
    assert(t[18].0.skip(2) =~= ".azure/clouds.config"@);
    assert(t[19].0.take(2) =~= "~/"@);
    assert(t[19].0.skip(2) =~= ".azure/azureProfile.json"@);
    assert(t[20].0.take(2) =~= "~/"@);
    assert(t[20].0.skip(2) =~= ".azure/msal_token_cache.json"@);
    assert(t[21].0.take(2) =~= "~/"@);
    assert(t[21].0.skip(2) =~= ".azure/msal_http_cache.bin"@);
    assert(t[22].0.take(2) =~= "~/"@);
    assert(t[22].0.skip(2) =~= ".azure/logs"@);
    assert(t[23].0.take(2) =~= "~/"@);
    assert(t[23].0.skip(2) =~= ".digitalocean"@);
    assert(t[24].0.take(2) =~= "~/"@);
    assert(t[24].0.skip(2) =~= ".kube"@);
    assert(t[25].0.take(2) =~= "~/"@);
    assert(t[25].0.skip(2) =~= ".ssh"@);
    assert(!under_home(t[26].0)) by {
        if under_home(t[26].0) {
            assert(t[26].0.take(2)[0] == t[26].0[0]);
        }
    }
    assert("./"@.len() == 2);
    assert("./.stakpak"@.len() == 10);
    assert("stakpak-aqua-cache"@.len() == 18);
    let p = |e: (Seq<char>, Seq<char>, bool)| target_follows_source(e);
    assert(all_from(t, p, 0)) by {
        reveal_with_fuel(all_from, 28);
    }
    lemma_all_from(t, p, 0);
}

/// The sources of the read-write mounts among the entries of `t` from
/// position `k` on, in order.
pub open spec fn read_write_sources_from(t: Seq<(Seq<char>, Seq<char>, bool)>, k: int) -> Seq<
    Seq<char>,
>
    decreases t.len() - k,
{
    if k < 0 || k >= t.len() {
        seq![]
    } else {
        (if t[k].2 {
            Seq::<Seq<char>>::empty()
        } else {
            seq![t[k].0]
        }) + read_write_sources_from(t, k + 1)
    }
}

/// Exactly eleven default mounts are writable: the local database, the
/// agent board, the project's `.stakpak` directory, the AWS SSO and CLI
/// caches, the gcloud logs and cache, the Azure token caches and logs, and
/// the tool cache volume; every other mount is read-only.
pub proof fn lemma_writable_mounts()
    ensures
        read_write_sources_from(default_mount_entries(), 0) == seq![
        home_path(".stakpak/data/local.db"@),
        home_path(".agent-board/data.db"@),
        "./.stakpak"@,
        home_path(".aws/sso"@),
        home_path(".aws/cli"@),
        home_path(".config/gcloud/logs"@),
        home_path(".config/gcloud/cache"@),
        home_path(".azure/msal_token_cache.json"@),
        home_path(".azure/msal_http_cache.bin"@),
        home_path(".azure/logs"@),
        "stakpak-aqua-cache"@
        ],
{
    let t = default_mount_entries();
    assert(read_write_sources_from(t, 0) =~= seq![
        home_path(".stakpak/data/local.db"@),
        home_path(".agent-board/data.db"@),
        "./.stakpak"@,
        home_path(".aws/sso"@),
        home_path(".aws/cli"@),
        home_path(".config/gcloud/logs"@),
        home_path(".config/gcloud/cache"@),
        home_path(".azure/msal_token_cache.json"@),
        home_path(".azure/msal_http_cache.bin"@),
        home_path(".azure/logs"@),
        "stakpak-aqua-cache"@
    ]) by {
        reveal_with_fuel(read_write_sources_from, 28);
    }
}

} // verus!
