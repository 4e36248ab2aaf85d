//! Locale text tables and verified template filling.
//!
//! Texts are looked up by key in the table of the current locale (with
//! English as the fallback table) and may contain `{}` placeholders that
//! are filled left to right from an argument list.

use vstd::prelude::*;
use vstd::string::*;

use crate::errors::{AppError, AppResult};
use crate::text::{spec_dec_str, str_eq, usize_to_string};

verus! {

/// First-match lookup in a key/value table.
pub open spec fn spec_lookup(entries: Seq<(String, String)>, key: Seq<char>) -> Option<Seq<char>>
    decreases entries.len(),
{
    if entries.len() == 0 {
        None
    } else if entries.first().0@ == key {
        Some(entries.first().1@)
    } else {
        spec_lookup(entries.drop_first(), key)
    }
}

/// The index of the first `{}` placeholder in a text, or -1.
pub open spec fn spec_find_placeholder(t: Seq<char>) -> int
    decreases t.len(),
{
    if t.len() < 2 {
        -1
    } else if t[0] == '{' && t[1] == '}' {
        0
    } else {
        let rest = spec_find_placeholder(t.drop_first());
        if rest == -1 {
            -1
        } else {
            rest + 1
        }
    }
}

/// Replace successive `{}` placeholders with the arguments, in order,
/// stopping at the first argument with no placeholder left for it.
pub open spec fn spec_fill(t: Seq<char>, args: Seq<Seq<char>>) -> Seq<char>
    decreases args.len(),
{
    if args.len() == 0 {
        t
    } else {
        let i = spec_find_placeholder(t);
        if i == -1 {
            t
        } else {
            t.take(i) + args.first() + spec_fill(t.skip(i + 2), args.drop_first())
        }
    }
}

/// `spec_find_placeholder` finds the leftmost placeholder: a negative
/// result means there is none, and a non-negative result points at a
/// placeholder with none before it.
pub proof fn lemma_find_placeholder_props(t: Seq<char>)
    ensures
        spec_find_placeholder(t) == -1 ==> (forall|i: int|
            0 <= i && i + 1 < t.len() ==> !(#[trigger] t[i] == '{' && t[i + 1] == '}')),
        spec_find_placeholder(t) != -1 ==> 0 <= spec_find_placeholder(t)
            && spec_find_placeholder(t) + 1 < t.len(),
        spec_find_placeholder(t) != -1 ==> t[spec_find_placeholder(t)] == '{'
            && t[spec_find_placeholder(t) + 1] == '}',
        spec_find_placeholder(t) != -1 ==> (forall|i: int|
            0 <= i < spec_find_placeholder(t) ==> !(#[trigger] t[i] == '{' && t[i + 1] == '}')),
    decreases t.len(),
{
    if t.len() < 2 {
    } else if t[0] == '{' && t[1] == '}' {
    } else {
        let td = t.drop_first();
        lemma_find_placeholder_props(td);
        assert(forall|i: int| 0 <= i && i + 1 < td.len() ==> #[trigger] td[i] == t[i + 1] && td[i + 1] == t[i
            + 2]);
        let rest = spec_find_placeholder(td);
        if rest == -1 {
            assert forall|i: int| 0 <= i && i + 1 < t.len() implies !(#[trigger] t[i] == '{' && t[i
                + 1] == '}') by {
                if i > 0 {
                    assert(!(td[i - 1] == '{' && td[i] == '}'));
                }
            }
        } else {
            assert forall|i: int| 0 <= i < spec_find_placeholder(t) implies !(#[trigger] t[i] == '{'
                && t[i + 1] == '}') by {
                if i > 0 {
                    assert(!(td[i - 1] == '{' && td[i] == '}'));
                }
            }
        }
    }
}

/// Find the first `{}` placeholder, scanning left to right.
fn find_placeholder(t: &str) -> (r: Option<usize>)
    ensures
        match r {
            Some(p) => p as int == spec_find_placeholder(t@),
            None => spec_find_placeholder(t@) == -1,
        },
{
    proof {
        lemma_find_placeholder_props(t@);
    }
    let len = t.unicode_len();
    if len < 2 {
        return None;
    }
    let mut j: usize = 0;
    while j + 1 < len
        invariant
            len == t@.len(),
            j + 1 <= len,
            forall|i: int| 0 <= i < j ==> !(#[trigger] t@[i] == '{' && t@[i + 1] == '}'),
        decreases len - j,
    {
        let c0 = t.get_char(j);
        let c1 = t.get_char(j + 1);
        if c0 == '{' && c1 == '}' {
            proof {
                lemma_find_placeholder_props(t@);
                let p = spec_find_placeholder(t@);
                assert(p != -1);
                assert(p <= j) by {
                    if p > j {
                        assert(!(t@[j as int] == '{' && t@[j + 1] == '}'));
                    }
                }
                assert(p == j);
            }
            return Some(j);
        }
        j = j + 1;
    }
    proof {
        lemma_find_placeholder_props(t@);
        let p = spec_find_placeholder(t@);
        if p != -1 {
            assert(!(t@[p] == '{' && t@[p + 1] == '}'));
        }
    }
    None
}

/// Fill `{}` placeholders in a template with the arguments, in order.
pub fn fill_template(template: &str, args: &[&str]) -> (r: String)
    ensures
        r@ == spec_fill(template@, args.deep_view()),
{
    let ghost dv: Seq<Seq<char>> = args.deep_view();
    let mut result = String::new();
    let mut rem: String = template.to_owned();
    let mut idx: usize = 0;
    let mut done = false;
    proof {
        assert(dv.skip(0) =~= dv);
        assert(result@ + spec_fill(rem@, dv) =~= spec_fill(template@, dv));
    }
    while !done && idx < args.len()
        invariant
            dv == args.deep_view(),
            dv.len() == args.len(),
            idx <= args.len(),
            spec_fill(template@, dv) == result@ + spec_fill(rem@, dv.skip(idx as int)),
            done ==> spec_fill(rem@, dv.skip(idx as int)) == rem@,
        decreases args.len() - idx + (if done { 0int } else { 1int }),
    {
        match find_placeholder(rem.as_str()) {
            None => {
                done = true;
            },
            Some(p) => {
                proof {
                    lemma_find_placeholder_props(rem@);
                    assert(dv.skip(idx as int).len() > 0);
                    assert(dv.skip(idx as int).first() == dv[idx as int]);
                    assert(dv.skip(idx as int).drop_first() =~= dv.skip(idx as int + 1));
                }
                let len = rem.unicode_len();
                let prefix = rem.as_str().substring_char(0, p).to_owned();
                let rest = rem.as_str().substring_char(p + 2, len).to_owned();
                proof {
                    assert(prefix@ =~= rem@.take(p as int));
                    assert(rest@ =~= rem@.skip(p as int + 2));
                }
                result.append(prefix.as_str());
                result.append(args[idx]);
                proof {
                    assert(args[idx as int]@ == dv[idx as int]);
                }
                rem = rest;
                idx = idx + 1;
            },
        }
    }
    proof {
        if !done {
            assert(dv.skip(idx as int) =~= Seq::<Seq<char>>::empty());
        }
    }
    result.append(rem.as_str());
    result
}

/// A table whose first three keys are `app_name`, `app_description`
/// and `settings` resolves those keys to its first three values.
proof fn lemma_table_head_lookups(t: Seq<(String, String)>)
    requires
        t.len() >= 3,
        t[0].0@ == "app_name"@,
        t[1].0@ == "app_description"@,
        t[2].0@ == "settings"@,
    ensures
        spec_lookup(t, "app_name"@) == Some(t[0].1@),
        spec_lookup(t, "app_description"@) == Some(t[1].1@),
        spec_lookup(t, "settings"@) == Some(t[2].1@),
{
    reveal_strlit("app_name");
    reveal_strlit("app_description");
    reveal_strlit("settings");
    assert("app_name"@.len() == 8);
    assert("app_description"@.len() == 15);
    assert("settings"@.len() == 8);
    assert("app_name"@[0] == 'a');
    assert("settings"@[0] == 's');
    assert("app_name"@ != "app_description"@);
    assert("app_name"@ != "settings"@);
    assert("app_description"@ != "settings"@);
    assert(t.first() == t[0]);
    assert(t.drop_first().first() == t[1]);
    assert(t.drop_first().drop_first().first() == t[2]);
    assert(spec_lookup(t, "app_name"@) == Some(t[0].1@));
    assert(spec_lookup(t, "app_description"@) == spec_lookup(t.drop_first(), "app_description"@));
    assert(spec_lookup(t.drop_first(), "app_description"@) == Some(t[1].1@));
    assert(spec_lookup(t, "settings"@) == spec_lookup(t.drop_first(), "settings"@));
    assert(spec_lookup(t.drop_first(), "settings"@) == spec_lookup(
        t.drop_first().drop_first(),
        "settings"@,
    ));
    assert(spec_lookup(t.drop_first().drop_first(), "settings"@) == Some(t[2].1@));
}

/// Locale text tables, with English as the fallback.
pub struct I18nService {
    current_locale: String,
    en_entries: Vec<(String, String)>,
    zh_entries: Vec<(String, String)>,
}

impl I18nService {
    /// The current locale code.
    pub closed spec fn locale(self) -> Seq<char> {
        self.current_locale@
    }

    /// The English table.
    pub closed spec fn en_table(self) -> Seq<(String, String)> {
        self.en_entries@
    }

    /// The Chinese table.
    pub closed spec fn zh_table(self) -> Seq<(String, String)> {
        self.zh_entries@
    }

    /// The table texts are resolved against: the Chinese table when the
    /// current locale is "zh", else the English one.
    pub open spec fn active_table(self) -> Seq<(String, String)> {
        if self.locale() == "zh"@ {
            self.zh_table()
        } else {
            self.en_table()
        }
    }

    /// The text a key resolves to: the table entry when present, the
    /// key itself otherwise.
    pub open spec fn spec_text(self, key: Seq<char>) -> Seq<char> {
        match spec_lookup(self.active_table(), key) {
            Some(t) => t,
            None => key,
        }
    }

    /// A service with the default locale "en" and loaded tables: the
    /// application texts resolve from the English table.
    pub fn new() -> (r: Self)
        ensures
            r.locale() == "en"@,
            r.spec_text("app_name"@) == "CCCS"@,
            r.spec_text("app_description"@) == "CCCS Configuration Switcher"@,
            r.spec_text("settings"@) == "Settings"@,
            spec_lookup(r.zh_table(), "app_name"@) == Some("CCCS"@),
            spec_lookup(r.zh_table(), "settings"@) == Some("设置"@),
    {
        let mut service = I18nService {
            current_locale: String::from_str("en"),
            en_entries: Vec::new(),
            zh_entries: Vec::new(),
        };
        let _ = service.load_text_resources();
        proof {
            reveal_strlit("en");
            reveal_strlit("zh");
            assert("en"@[0] == 'e');
            assert("zh"@[0] == 'z');
            assert("en"@ != "zh"@);
            assert(service.locale() != "zh"@);
        }
        service
    }

    /// Rebuild the text tables for all supported languages.  The keys
    /// the application resolves most are pinned: the app name, the app
    /// description and the settings label, in both tables.
    pub fn load_text_resources(&mut self) -> (r: AppResult<()>)
        ensures
            r is Ok,
            final(self).locale() == old(self).locale(),
            spec_lookup(final(self).en_table(), "app_name"@) == Some("CCCS"@),
            spec_lookup(final(self).en_table(), "app_description"@) == Some(
                "CCCS Configuration Switcher"@,
            ),
            spec_lookup(final(self).en_table(), "settings"@) == Some("Settings"@),
            spec_lookup(final(self).zh_table(), "app_name"@) == Some("CCCS"@),
            spec_lookup(final(self).zh_table(), "settings"@) == Some("设置"@),
    {
        let mut en: Vec<(String, String)> = Vec::new();
        push_entry(&mut en, "app_name", "CCCS");
        push_entry(&mut en, "app_description", "CCCS Configuration Switcher");
        push_entry(&mut en, "settings", "Settings");
        push_entry(&mut en, "exit", "Exit");
        push_entry(&mut en, "profile", "Profile");
        push_entry(&mut en, "active", "Active");
        push_entry(&mut en, "inactive", "Inactive");
        push_entry(&mut en, "switch_profile", "Switch to profile: {}");
        push_entry(&mut en, "switching_profile", "Switching profile...");
        push_entry(&mut en, "profile_switched", "Profile switched successfully");
        push_entry(&mut en, "switch_failed", "Failed to switch profile");
        push_entry(&mut en, "tool_not_found", "tool installation not found");
        push_entry(
            &mut en,
            "settings_not_found",
            "settings.json not found. Please run the target tool at least once.",
        );
        push_entry(&mut en, "monitor_interval", "Monitor interval: {} minutes");
        push_entry(&mut en, "monitoring_started", "File monitoring started");
        push_entry(&mut en, "monitoring_stopped", "File monitoring stopped");
        push_entry(&mut en, "config_changed", "Configuration file changed");
        push_entry(&mut en, "error", "Error");
        push_entry(&mut en, "warning", "Warning");
        push_entry(&mut en, "info", "Information");
        push_entry(&mut en, "ok", "OK");
        push_entry(&mut en, "cancel", "Cancel");
        push_entry(&mut en, "close", "Close");
        push_entry(&mut en, "save", "Save");
        push_entry(&mut en, "loading", "Loading...");
        push_entry(&mut en, "saving", "Saving...");

        let mut zh: Vec<(String, String)> = Vec::new();
        push_entry(&mut zh, "app_name", "CCCS");
        push_entry(&mut zh, "app_description", "CCCS 配置切换器");
        push_entry(&mut zh, "settings", "设置");
        push_entry(&mut zh, "exit", "退出");
        push_entry(&mut zh, "profile", "配置");
        push_entry(&mut zh, "active", "激活");
        push_entry(&mut zh, "inactive", "未激活");
        push_entry(&mut zh, "switch_profile", "切换到配置: {}");
        push_entry(&mut zh, "switching_profile", "正在切换配置...");
        push_entry(&mut zh, "profile_switched", "配置切换成功");
        push_entry(&mut zh, "switch_failed", "配置切换失败");
        push_entry(&mut zh, "tool_not_found", "未找到目标工具安装");
        push_entry(&mut zh, "settings_not_found", "未找到 settings.json 文件。请至少运行一次目标工具。");
        push_entry(&mut zh, "monitor_interval", "监控间隔: {} 分钟");
        push_entry(&mut zh, "monitoring_started", "文件监控已启动");
        push_entry(&mut zh, "monitoring_stopped", "文件监控已停止");
        push_entry(&mut zh, "config_changed", "配置文件已更改");
        push_entry(&mut zh, "error", "错误");
        push_entry(&mut zh, "warning", "警告");
        push_entry(&mut zh, "info", "信息");
        push_entry(&mut zh, "ok", "确定");
        push_entry(&mut zh, "cancel", "取消");
        push_entry(&mut zh, "close", "关闭");
        push_entry(&mut zh, "save", "保存");
        push_entry(&mut zh, "loading", "加载中...");
        push_entry(&mut zh, "saving", "保存中...");

        self.en_entries = en;
        self.zh_entries = zh;
        proof {
            let t = self.en_entries@;
            assert(t[0].0@ == "app_name"@ && t[0].1@ == "CCCS"@);
            assert(t[1].0@ == "app_description"@ && t[1].1@ == "CCCS Configuration Switcher"@);
            assert(t[2].0@ == "settings"@ && t[2].1@ == "Settings"@);
            lemma_table_head_lookups(t);
            let z = self.zh_entries@;
            assert(z[0].0@ == "app_name"@ && z[0].1@ == "CCCS"@);
            assert(z[2].0@ == "settings"@ && z[2].1@ == "设置"@);
            lemma_table_head_lookups(z);
        }
        Ok(())
    }

    /// The text for a key in the current locale.
    pub fn get_text(&self, key: &str) -> (r: String)
        ensures
            r@ == self.spec_text(key@),
    {
        let empty: [&str; 0] = [];
        self.get_text_with_args(key, &empty)
    }

    /// The text for a key, with `{}` placeholders filled from the
    /// arguments in order.  A missing key resolves to the key itself,
    /// unfilled.
    pub fn get_text_with_args(&self, key: &str, args: &[&str]) -> (r: String)
        ensures
            match spec_lookup(self.active_table(), key@) {
                Some(t) => r@ == spec_fill(t, args.deep_view()),
                None => r@ == key@,
            },
    {
        let table = if str_eq(self.current_locale.as_str(), "zh") {
            &self.zh_entries
        } else {
            &self.en_entries
        };
        match lookup_table(table, key) {
            Some(template) => fill_template(template.as_str(), args),
            None => key.to_owned(),
        }
    }

    /// The locales with a text table.
    pub fn get_supported_locales() -> (r: Vec<String>)
        ensures
            r@.len() == 2,
            r@[0]@ == "en"@,
            r@[1]@ == "zh"@,
    {
        let mut locales: Vec<String> = Vec::new();
        locales.push(String::from_str("en"));
        locales.push(String::from_str("zh"));
        locales
    }

    /// Switch to a supported locale; rejected otherwise, leaving the
    /// locale unchanged.
    pub fn set_locale(&mut self, locale: &str) -> (r: AppResult<()>)
        ensures
            r is Ok <==> (locale@ == "en"@ || locale@ == "zh"@),
            r is Ok ==> final(self).locale() == locale@,
            r is Err ==> final(self).locale() == old(self).locale() && r->Err_0 is I18nError,
            final(self).en_table() == old(self).en_table(),
            final(self).zh_table() == old(self).zh_table(),
    {
        if str_eq(locale, "en") || str_eq(locale, "zh") {
            self.current_locale = locale.to_owned();
            Ok(())
        } else {
            Err(AppError::I18nError(String::from_str("Unsupported locale")))
        }
    }

    /// The current locale code.
    pub fn get_current_locale(&self) -> (r: &str)
        ensures
            r@ == self.locale(),
    {
        self.current_locale.as_str()
    }

    /// Whether a locale has a text table.
    pub fn is_locale_supported(locale: &str) -> (r: bool)
        ensures
            r == (locale@ == "en"@ || locale@ == "zh"@),
    {
        str_eq(locale, "en") || str_eq(locale, "zh")
    }

    /// The menu label for a profile: the name, with a check mark
    /// appended when it is active.
    pub fn get_profile_menu_text(&self, profile_name: &str, is_active: bool) -> (r: String)
        ensures
            is_active ==> r@ == profile_name@ + " ✅"@,
            !is_active ==> r@ == profile_name@,
    {
        if is_active {
            profile_name.to_owned().concat(" ✅")
        } else {
            profile_name.to_owned()
        }
    }

    /// The tooltip: the app description alone when no profiles are
    /// known, the active profile's name when one matches, and the
    /// profile count otherwise.
    pub open spec fn spec_tooltip(self, count: nat, active: Option<Seq<char>>) -> Seq<char> {
        let desc = self.spec_text("app_description"@);
        if count == 0 {
            desc
        } else if active is Some {
            desc + " - "@ + self.spec_text("active"@) + ": "@ + active->Some_0
        } else {
            desc + " - "@ + spec_dec_str(count) + " "@ + (if count == 1 {
                self.spec_text("profile"@)
            } else {
                self.spec_text("profile"@) + "s"@
            })
        }
    }

    /// The tray tooltip for the given profile count and active profile.
    pub fn get_tray_tooltip(&self, profile_count: usize, active_profile: Option<&str>) -> (r:
        String)
        ensures
            r@ == self.spec_tooltip(
                profile_count as nat,
                match active_profile {
                    Some(name) => Some(name@),
                    None => None,
                },
            ),
    {
        let description = self.get_text("app_description");
        if profile_count == 0 {
            description
        } else {
            match active_profile {
                Some(name) => {
                    description.concat(" - ").concat(self.get_text("active").as_str()).concat(
                        ": ",
                    ).concat(name)
                },
                None => {
                    let profile_word = self.get_text("profile");
                    let counted = if profile_count == 1 {
                        profile_word
                    } else {
                        profile_word.concat("s")
                    };
                    description.concat(" - ").concat(
                        usize_to_string(profile_count).as_str(),
                    ).concat(" ").concat(counted.as_str())
                },
            }
        }
    }
}

/// Add one key/value pair to a table.
fn push_entry(table: &mut Vec<(String, String)>, key: &str, value: &str)
    ensures
        final(table)@.len() == old(table)@.len() + 1,
        final(table)@.last().0@ == key@,
        final(table)@.last().1@ == value@,
        forall|i: int| 0 <= i < old(table)@.len() ==> final(table)@[i] == old(table)@[i],
{
    table.push((String::from_str(key), String::from_str(value)));
}

/// First-match lookup in a key/value table.
fn lookup_table(entries: &Vec<(String, String)>, key: &str) -> (r: Option<String>)
    ensures
        match r {
            Some(v) => spec_lookup(entries@, key@) == Some(v@),
            None => spec_lookup(entries@, key@) is None,
        },
{
    let n = entries.len();
    let mut i: usize = 0;
    proof {
        assert(entries@.skip(0) =~= entries@);
    }
    while i < n
        invariant
            n == entries@.len(),
            i <= n,
            spec_lookup(entries@, key@) == spec_lookup(entries@.skip(i as int), key@),
        decreases n - i,
    {
        proof {
            assert(entries@.skip(i as int).first() == entries@[i as int]);
            assert(entries@.skip(i as int).drop_first() =~= entries@.skip(i as int + 1));
        }
        let pair = &entries[i];
        if str_eq(pair.0.as_str(), key) {
            return Some(pair.1.clone());
        }
        i = i + 1;
    }
    proof {
        assert(entries@.skip(n as int) =~= Seq::<(String, String)>::empty());
    }
    None
}

} // verus!
