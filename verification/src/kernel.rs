//! The kernel capabilities the daemon cares about, from the kernel's build
//! configuration (`/proc/config.gz`) or, without one, from what the system
//! exposes.
use vstd::prelude::*;
use crate::hardware::KernelCapabilityProfile;
use crate::text::{
    find_char, has_prefix, lemma_find_char_bounds, lemma_split_by_step, split_by, starts_with_chars,
    chars_of, string_from_chars,
};

verus! {

/// The text that `flate2`'s gzip decoder reads from the given bytes: `None`
/// when they are not a gzip stream of UTF-8 text.
pub uninterp spec fn gunzip_text(bytes: Seq<u8>) -> Option<Seq<char>>;

/// Decompresses gzip data with `flate2::read::GzDecoder` and reads it as
/// UTF-8 text (`std::io::Read::read_to_string`). The contract only names
/// the result: it is a function of the bytes.
#[verifier::external_body]
fn gunzip_to_string(bytes: &[u8]) -> (r: Option<String>)
    ensures
        match r {
            Some(s) => gunzip_text(bytes@) == Some(s@),
            None => gunzip_text(bytes@).is_none(),
        },
{
    let mut gz = flate2::read::GzDecoder::new(bytes);
    let mut content = String::new();
    match std::io::Read::read_to_string(&mut gz, &mut content) {
        Ok(_) => Some(content),
        Err(_) => None,
    }
}

/// The configuration options whose settings are recorded.
pub open spec fn target_features() -> Seq<Seq<char>> {
    seq![
        "CONFIG_SCHED_WALT"@,
        "CONFIG_UCLAMP_TASK"@,
        "CONFIG_UCLAMP_BUCKETS_COUNT"@,
        "CONFIG_ENERGY_MODEL"@,
        "CONFIG_CPU_FREQ"@,
        "CONFIG_CPU_IDLE"@,
        "CONFIG_CPUSETS"@,
        "CONFIG_CGROUPS"@,
        "CONFIG_CGROUP_SCHED"@,
        "CONFIG_PSI"@,
        "CONFIG_PSI_DEFAULT_DISABLED"@,
        "CONFIG_THERMAL"@,
        "CONFIG_THERMAL_GOV_STEP_WISE"@,
        "CONFIG_THERMAL_GOV_POWER_ALLOCATOR"@,
        "CONFIG_DEVFREQ_GOV_SIMPLE_ONDEMAND"@,
        "CONFIG_QCOM_CPUFREQ_HW"@,
        "CONFIG_ARM64"@,
        "CONFIG_HZ"@,
        "CONFIG_PREEMPT"@,
        "CONFIG_PREEMPT_DYNAMIC"@,
    ]
}

fn target_features_exec() -> (r: Vec<&'static str>)
    ensures
        crate::game_turbo::states::string_views_of(r@) == target_features(),
{
    let r = vec![
        "CONFIG_SCHED_WALT",
        "CONFIG_UCLAMP_TASK",
        "CONFIG_UCLAMP_BUCKETS_COUNT",
        "CONFIG_ENERGY_MODEL",
        "CONFIG_CPU_FREQ",
        "CONFIG_CPU_IDLE",
        "CONFIG_CPUSETS",
        "CONFIG_CGROUPS",
        "CONFIG_CGROUP_SCHED",
        "CONFIG_PSI",
        "CONFIG_PSI_DEFAULT_DISABLED",
        "CONFIG_THERMAL",
        "CONFIG_THERMAL_GOV_STEP_WISE",
        "CONFIG_THERMAL_GOV_POWER_ALLOCATOR",
        "CONFIG_DEVFREQ_GOV_SIMPLE_ONDEMAND",
        "CONFIG_QCOM_CPUFREQ_HW",
        "CONFIG_ARM64",
        "CONFIG_HZ",
        "CONFIG_PREEMPT",
        "CONFIG_PREEMPT_DYNAMIC",
    ];
    assert(crate::game_turbo::states::string_views_of(r@) =~= target_features());
    r
}

/// A configuration line that is recorded: it starts with one of the target
/// options and sets it (holds `=`).
pub open spec fn is_feature_line(line: Seq<char>) -> bool {
    &&& has_prefix(line, "CONFIG_"@)
    &&& exists|k: int| 0 <= k < target_features().len() && has_prefix(line, #[trigger] target_features()[k])
    &&& find_char(line, '=') < line.len()
}

/// A line without the `\r` of a `\r\n` ending.
pub open spec fn strip_cr(line: Seq<char>) -> Seq<char> {
    if line.len() > 0 && line.last() == '\r' {
        line.drop_last()
    } else {
        line
    }
}

/// The lines of a text as `str::lines` gives them: pieces between `\n`, a
/// `\r` before the `\n` removed.
pub open spec fn text_lines(text: Seq<char>) -> Seq<Seq<char>> {
    let p = split_by(text, '\n');
    Seq::new(p.len(), |i: int| if i < p.len() - 1 { strip_cr(p[i]) } else { p[i] })
}

/// The recorded lines, in order.
pub open spec fn feature_lines(lines: Seq<Seq<char>>) -> Seq<Seq<char>> {
    lines.filter(|l: Seq<char>| is_feature_line(l))
}

fn is_feature_line_exec(line: &Vec<char>, targets: &Vec<&'static str>) -> (r: bool)
    requires
        crate::game_turbo::states::string_views_of(targets@) == target_features(),
    ensures
        r == is_feature_line(line@),
{
    if !starts_with_chars(line, &chars_of("CONFIG_")) {
        return false;
    }
    let mut found = false;
    let mut k: usize = 0;
    while k < targets.len()
        invariant
            0 <= k <= targets.len(),
            crate::game_turbo::states::string_views_of(targets@) == target_features(),
            found == exists|j: int| 0 <= j < k && has_prefix(line@, #[trigger] target_features()[j]),
        decreases targets.len() - k,
    {
        if starts_with_chars(line, &chars_of(targets[k])) {
            assert(target_features()[k as int] == targets@[k as int]@);
            found = true;
        } else {
            assert(target_features()[k as int] == targets@[k as int]@);
        }
        k = k + 1;
    }
    if !found {
        return false;
    }
    contains_equals(line)
}

/// Whether the line holds `=`.
fn contains_equals(line: &Vec<char>) -> (r: bool)
    ensures
        r == (find_char(line@, '=') < line.len()),
{
    proof {
        lemma_find_char_bounds(line@, '=');
    }
    let mut i: usize = 0;
    while i < line.len()
        invariant
            0 <= i <= line.len(),
            forall|j: int| 0 <= j < i ==> line@[j] != '=',
            0 <= find_char(line@, '=') <= line.len(),
            find_char(line@, '=') < line.len() ==> line@[find_char(line@, '=')] == '=',
            forall|j: int| 0 <= j < find_char(line@, '=') ==> line@[j] != '=',
        decreases line.len() - i,
    {
        if line[i] == '=' {
            return true;
        }
        i = i + 1;
    }
    false
}

/// The settings of the target options in a kernel configuration text, in
/// the order of its lines.
pub fn kernel_features(text: &str) -> (r: Vec<String>)
    ensures
        r.deep_view() == feature_lines(text_lines(text@)),
{
    let chars = chars_of(text);
    let targets = target_features_exec();
    let mut out: Vec<String> = Vec::new();
    let mut cur: Vec<char> = Vec::new();
    let ghost mut done: Seq<Seq<char>> = Seq::empty();
    let mut k: usize = 0;
    assert(chars@.take(0) =~= Seq::<char>::empty());
    while k < chars.len()
        invariant
            0 <= k <= chars.len(),
            chars@ == text@,
            crate::game_turbo::states::string_views_of(targets@) == target_features(),
            split_by(chars@.take(k as int), '\n') == done.push(cur@),
            out.deep_view() == feature_lines(done.map_values(|l: Seq<char>| strip_cr(l))),
        decreases chars.len() - k,
    {
        let c = chars[k];
        proof {
            lemma_split_by_step(chars@.take(k as int), '\n', c);
            assert(chars@.take(k + 1) =~= chars@.take(k as int).push(c));
        }
        if c == '\n' {
            let mut line = cur;
            if line.len() > 0 && line[line.len() - 1] == '\r' {
                line.pop();
            }
            let ghost stripped = strip_cr(cur@);
            assert(line@ =~= stripped);
            let ghost before = out.deep_view();
            let ghost mapped = done.map_values(|l: Seq<char>| strip_cr(l));
            if is_feature_line_exec(&line, &targets) {
                let s = string_from_chars(&line);
                let ghost before_v = out@;
                out.push(s);
                assert(out.deep_view() =~= before.push(stripped)) by {
                    assert forall|x: int| 0 <= x < out.len() implies out.deep_view()[x]
                        == before.push(stripped)[x] by {
                        if x < before_v.len() {
                            assert(out@[x] == before_v[x]);
                        }
                    }
                }
            }
            proof {
                mapped.lemma_filter_push(stripped, |l: Seq<char>| is_feature_line(l));
                assert(done.push(cur@).map_values(|l: Seq<char>| strip_cr(l)) =~= mapped.push(stripped));
                done = done.push(cur@);
            }
            cur = Vec::new();
            assert(done.push(cur@) =~= split_by(chars@.take(k + 1), '\n'));
        } else {
            proof {
                let p = split_by(chars@.take(k as int), '\n');
                assert(p.last() == cur@);
            }
            cur.push(c);
            assert(done.push(cur@) =~= split_by(chars@.take(k + 1), '\n'));
        }
        k = k + 1;
    }
    assert(chars@.take(chars.len() as int) =~= chars@);
    let ghost mapped = done.map_values(|l: Seq<char>| strip_cr(l));
    let ghost before = out.deep_view();
    if is_feature_line_exec(&cur, &targets) {
        let s = string_from_chars(&cur);
        let ghost before_v = out@;
        out.push(s);
        assert(out.deep_view() =~= before.push(cur@)) by {
            assert forall|x: int| 0 <= x < out.len() implies out.deep_view()[x] == before.push(cur@)[x] by {
                if x < before_v.len() {
                    assert(out@[x] == before_v[x]);
                }
            }
        }
    }
    proof {
        mapped.lemma_filter_push(cur@, |l: Seq<char>| is_feature_line(l));
        let lines = text_lines(text@);
        assert(lines =~= mapped.push(cur@));
    }
    out
}

/// The kernel's capabilities. With a readable `/proc/config.gz` (its bytes
/// in `config_gz`) the settings of the target options are read from it;
/// otherwise the devfreq module, the energy model and PSI, each when the
/// system exposes it, stand for their options.
pub fn probe_kernel(
    config_gz: Option<&[u8]>,
    has_devfreq_module: bool,
    has_energy_model: bool,
    has_psi: bool,
) -> (r: KernelCapabilityProfile)
    ensures
        r.selinux_enforcing.is_none(),
        ({
            let text = match config_gz {
                Some(b) => gunzip_text(b@),
                None => None,
            };
            match text {
                Some(t) => r.features.deep_view() == feature_lines(text_lines(t)),
                None => r.features.deep_view() == (if has_devfreq_module {
                    seq!["CONFIG_DEVFREQ_GOV_SIMPLE_ONDEMAND=y"@]
                } else {
                    Seq::<Seq<char>>::empty()
                }) + (if has_energy_model {
                    seq!["CONFIG_ENERGY_MODEL=y"@]
                } else {
                    Seq::<Seq<char>>::empty()
                }) + (if has_psi {
                    seq!["CONFIG_PSI=y"@]
                } else {
                    Seq::<Seq<char>>::empty()
                }),
            }
        }),
{
    let text = match config_gz {
        Some(b) => gunzip_to_string(b),
        None => None,
    };
    match text {
        Some(t) => KernelCapabilityProfile { features: kernel_features(t.as_str()), selinux_enforcing: None },
        None => {
            let mut features: Vec<String> = Vec::new();
            let ghost e = Seq::<Seq<char>>::empty();
            if has_devfreq_module {
                features.push("CONFIG_DEVFREQ_GOV_SIMPLE_ONDEMAND=y".to_owned());
            }
            let ghost a = features.deep_view();
            if has_energy_model {
                features.push("CONFIG_ENERGY_MODEL=y".to_owned());
            }
            let ghost b = features.deep_view();
            if has_psi {
                features.push("CONFIG_PSI=y".to_owned());
            }
            proof {
                let d = if has_devfreq_module {
                    seq!["CONFIG_DEVFREQ_GOV_SIMPLE_ONDEMAND=y"@]
                } else {
                    Seq::<Seq<char>>::empty()
                };
                let m = if has_energy_model {
                    seq!["CONFIG_ENERGY_MODEL=y"@]
                } else {
                    Seq::<Seq<char>>::empty()
                };
                let p = if has_psi {
                    seq!["CONFIG_PSI=y"@]
                } else {
                    Seq::<Seq<char>>::empty()
                };
                assert(a =~= d);
                assert(b =~= d + m);
                assert(features.deep_view() =~= d + m + p);
            }
            KernelCapabilityProfile { features, selinux_enforcing: None }
        },
    }
}

} // verus!
