//! The Distribution Resolver: classifies the host into exactly one of a
//! closed set of distribution variants from the identification record and
//! from two filesystem facts gathered by the caller.

use vstd::prelude::*;

use crate::osrelease::{spec_parse_os_release, OsReleaseInfo, OsReleaseView};
use crate::text::{contains_str, contains_sub, has_ws_token, str_eq, tokens};
use crate::TopgradeError;

verus! {

/// The closed set of distribution variants. Exactly one is active per
/// run; it is immutable once resolved and carries no payload.
#[allow(clippy::upper_case_acronyms)]
#[derive(Copy, Clone, Debug, PartialEq, Eq, Structural)]
pub enum Distribution {
    Alpine,
    Wolfi,
    Arch,
    Bedrock,
    CentOS,
    Chimera,
    ClearLinux,
    Fedora,
    FedoraImmutable,
    Debian,
    Gentoo,
    NILRT,
    OpenMandriva,
    OpenSuseTumbleweed,
    PCLinuxOS,
    Suse,
    SuseMicro,
    Vanilla,
    Void,
    Solus,
    Exherbo,
    NixOS,
    KDENeon,
    Nobara,
}

/// The Fedora family split: the atomic/immutable editions, told apart by
/// a fixed list of `VARIANT` values; everything else is ordinary Fedora.
pub open spec fn spec_fedora_variant(variant: Option<Seq<char>>) -> Distribution {
    match variant {
        Some(v) => {
            if v == "Silverblue"@ || v == "Kinoite"@ || v == "Sericea"@ || v == "Onyx"@ || v
                == "IoT Edition"@ || v == "Sway Atomic"@ || v == "CoreOS"@ {
                Distribution::FedoraImmutable
            } else {
                Distribution::Fedora
            }
        },
        None => Distribution::Fedora,
    }
}

/// Whether `id` stands in the static table of directly recognised
/// identifiers.
pub open spec fn direct_match(id: Seq<char>) -> bool {
    ||| id == "alpine"@
    ||| id == "chimera"@
    ||| id == "wolfi"@
    ||| id == "centos"@
    ||| id == "rhel"@
    ||| id == "ol"@
    ||| id == "clear-linux-os"@
    ||| id == "fedora"@
    ||| id == "nilrt"@
    ||| id == "nobara"@
    ||| id == "void"@
    ||| id == "debian"@
    ||| id == "pureos"@
    ||| id == "Deepin"@
    ||| id == "linuxmint"@
    ||| id == "arch"@
    ||| id == "manjaro-arm"@
    ||| id == "garuda"@
    ||| id == "artix"@
    ||| id == "cachyos"@
    ||| id == "solus"@
    ||| id == "gentoo"@
    ||| id == "funtoo"@
    ||| id == "exherbo"@
    ||| id == "nixos"@
    ||| id == "opensuse-microos"@
    ||| id == "neon"@
    ||| id == "openmandriva"@
    ||| id == "pclinuxos"@
}

/// The variant a directly recognised `id` maps to. Several identifiers
/// map to the same variant; `fedora` branches further on `VARIANT`.
pub open spec fn spec_direct(id: Seq<char>, variant: Option<Seq<char>>) -> Distribution
    recommends
        direct_match(id),
{
    if id == "alpine"@ {
        Distribution::Alpine
    } else if id == "chimera"@ {
        Distribution::Chimera
    } else if id == "wolfi"@ {
        Distribution::Wolfi
    } else if id == "centos"@ || id == "rhel"@ || id == "ol"@ {
        Distribution::CentOS
    } else if id == "clear-linux-os"@ {
        Distribution::ClearLinux
    } else if id == "fedora"@ {
        spec_fedora_variant(variant)
    } else if id == "nilrt"@ {
        Distribution::NILRT
    } else if id == "nobara"@ {
        Distribution::Nobara
    } else if id == "void"@ {
        Distribution::Void
    } else if id == "debian"@ || id == "pureos"@ || id == "Deepin"@ || id == "linuxmint"@ {
        Distribution::Debian
    } else if id == "arch"@ || id == "manjaro-arm"@ || id == "garuda"@ || id == "artix"@ || id
        == "cachyos"@ {
        Distribution::Arch
    } else if id == "solus"@ {
        Distribution::Solus
    } else if id == "gentoo"@ || id == "funtoo"@ {
        Distribution::Gentoo
    } else if id == "exherbo"@ {
        Distribution::Exherbo
    } else if id == "nixos"@ {
        Distribution::NixOS
    } else if id == "opensuse-microos"@ {
        Distribution::SuseMicro
    } else if id == "neon"@ {
        Distribution::KDENeon
    } else if id == "openmandriva"@ {
        Distribution::OpenMandriva
    } else {
        Distribution::PCLinuxOS
    }
}

/// The fallback chain, tried only after every direct `ID` match fails:
/// first a substring check of `NAME` for the Vanilla marker, then the
/// `ID_LIKE` tokens against a fixed ordered list of family markers, first
/// match winning.
pub open spec fn spec_fallback(r: OsReleaseView) -> Result<Distribution, ()> {
    if r.name matches Some(n) && contains_sub(n, "Vanilla"@) {
        Ok(Distribution::Vanilla)
    } else {
        match r.id_like {
            Some(il) => {
                let tk = tokens(il);
                if tk.contains("debian"@) || tk.contains("ubuntu"@) {
                    Ok(Distribution::Debian)
                } else if tk.contains("centos"@) {
                    Ok(Distribution::CentOS)
                } else if tk.contains("suse"@) {
                    if r.id matches Some(i) && contains_sub(i, "tumbleweed"@) {
                        Ok(Distribution::OpenSuseTumbleweed)
                    } else {
                        Ok(Distribution::Suse)
                    }
                } else if tk.contains("arch"@) || tk.contains("archlinux"@) {
                    Ok(Distribution::Arch)
                } else if tk.contains("alpine"@) {
                    Ok(Distribution::Alpine)
                } else if tk.contains("fedora"@) {
                    Ok(spec_fedora_variant(r.variant))
                } else {
                    Err(())
                }
            },
            None => Err(()),
        }
    }
}

/// The whole classification of an identification record.
pub open spec fn spec_classify(r: OsReleaseView) -> Result<Distribution, ()> {
    match r.id {
        Some(id) => {
            if direct_match(id) {
                Ok(spec_direct(id, r.variant))
            } else {
                spec_fallback(r)
            }
        },
        None => spec_fallback(r),
    }
}

/// The resolution of the host: the multi-strata marker wins outright;
/// otherwise the identification file must exist, parse, and hold a
/// non-empty primary section, and its record must classify.
pub open spec fn spec_detect(bedrock_marker: bool, contents: Option<Seq<char>>) -> Result<
    Distribution,
    TopgradeError,
> {
    if bedrock_marker {
        Ok(Distribution::Bedrock)
    } else {
        match contents {
            None => Err(TopgradeError::EmptyOsRelease),
            Some(s) => match spec_parse_os_release(s) {
                Err(_) => Err(TopgradeError::InvalidOsRelease),
                Ok(rec) => {
                    if !rec.entries {
                        Err(TopgradeError::EmptyOsRelease)
                    } else {
                        match spec_classify(rec) {
                            Ok(d) => Ok(d),
                            Err(_) => Err(TopgradeError::UnknownDistribution),
                        }
                    }
                },
            },
        }
    }
}

impl Distribution {
    /// The Fedora family split on the `VARIANT` value: every known
    /// atomic spin identifier yields the immutable variant, anything
    /// else (or no `VARIANT` at all) the ordinary one.
    pub fn match_fedora_variant(variant: &Option<String>) -> (r: Distribution)
        ensures
            r == spec_fedora_variant(match variant {
                Some(v) => Some(v@),
                None => None,
            }),
    {
        match variant {
            Some(v) => {
                let s = v.as_str();
                if str_eq(s, "Silverblue") || str_eq(s, "Kinoite") || str_eq(s, "Sericea")
                    || str_eq(s, "Onyx") || str_eq(s, "IoT Edition") || str_eq(
                    s,
                    "Sway Atomic",
                ) || str_eq(s, "CoreOS") {
                    Distribution::FedoraImmutable
                } else {
                    Distribution::Fedora
                }
            },
            None => Distribution::Fedora,
        }
    }

    /// Classifies an identification record, trying the static `ID` table
    /// first and the `NAME` / `ID_LIKE` fallback chain after it.
    ///
    /// Returns exactly the variant of [`spec_classify`], and
    /// [`TopgradeError::UnknownDistribution`] exactly when no identifier
    /// matches.
    pub fn parse_os_release(rec: &OsReleaseInfo) -> (r: Result<Distribution, TopgradeError>)
        ensures
            match r {
                Ok(d) => spec_classify(rec@) == Ok::<Distribution, ()>(d),
                Err(e) => spec_classify(rec@) is Err && e == TopgradeError::UnknownDistribution,
            },
    {
        if let Some(id) = &rec.id {
            let s = id.as_str();
            if str_eq(s, "alpine") {
                return Ok(Distribution::Alpine);
            }
            if str_eq(s, "chimera") {
                return Ok(Distribution::Chimera);
            }
            if str_eq(s, "wolfi") {
                return Ok(Distribution::Wolfi);
            }
            if str_eq(s, "centos") || str_eq(s, "rhel") || str_eq(s, "ol") {
                return Ok(Distribution::CentOS);
            }
            if str_eq(s, "clear-linux-os") {
                return Ok(Distribution::ClearLinux);
            }
            if str_eq(s, "fedora") {
                return Ok(Self::match_fedora_variant(&rec.variant));
            }
            if str_eq(s, "nilrt") {
                return Ok(Distribution::NILRT);
            }
            if str_eq(s, "nobara") {
                return Ok(Distribution::Nobara);
            }
            if str_eq(s, "void") {
                return Ok(Distribution::Void);
            }
            if str_eq(s, "debian") || str_eq(s, "pureos") || str_eq(s, "Deepin") || str_eq(
                s,
                "linuxmint",
            ) {
                return Ok(Distribution::Debian);
            }
            if str_eq(s, "arch") || str_eq(s, "manjaro-arm") || str_eq(s, "garuda") || str_eq(
                s,
                "artix",
            ) || str_eq(s, "cachyos") {
                return Ok(Distribution::Arch);
            }
            if str_eq(s, "solus") {
                return Ok(Distribution::Solus);
            }
            if str_eq(s, "gentoo") || str_eq(s, "funtoo") {
                return Ok(Distribution::Gentoo);
            }
            if str_eq(s, "exherbo") {
                return Ok(Distribution::Exherbo);
            }
            if str_eq(s, "nixos") {
                return Ok(Distribution::NixOS);
            }
            if str_eq(s, "opensuse-microos") {
                return Ok(Distribution::SuseMicro);
            }
            if str_eq(s, "neon") {
                return Ok(Distribution::KDENeon);
            }
            if str_eq(s, "openmandriva") {
                return Ok(Distribution::OpenMandriva);
            }
            if str_eq(s, "pclinuxos") {
                return Ok(Distribution::PCLinuxOS);
            }
        }
        Self::fallback(rec)
    }

    /// The fallback chain of [`spec_fallback`], reached only when no
    /// direct `ID` match exists.
    fn fallback(rec: &OsReleaseInfo) -> (r: Result<Distribution, TopgradeError>)
        requires
            match rec@.id {
                Some(i) => !direct_match(i),
                None => true,
            },
        ensures
            match r {
                Ok(d) => spec_fallback(rec@) == Ok::<Distribution, ()>(d),
                Err(e) => spec_fallback(rec@) is Err && e == TopgradeError::UnknownDistribution,
            },
    {
        if let Some(name) = &rec.name {
            if contains_str(name.as_str(), "Vanilla") {
                return Ok(Distribution::Vanilla);
            }
        }
        if let Some(id_like) = &rec.id_like {
            let il = id_like.as_str();
            if has_ws_token(il, "debian") || has_ws_token(il, "ubuntu") {
                return Ok(Distribution::Debian);
            }
            if has_ws_token(il, "centos") {
                return Ok(Distribution::CentOS);
            }
            if has_ws_token(il, "suse") {
                let tumbleweed = match &rec.id {
                    Some(id) => contains_str(id.as_str(), "tumbleweed"),
                    None => false,
                };
                return if tumbleweed {
                    Ok(Distribution::OpenSuseTumbleweed)
                } else {
                    Ok(Distribution::Suse)
                };
            }
            if has_ws_token(il, "arch") || has_ws_token(il, "archlinux") {
                return Ok(Distribution::Arch);
            }
            if has_ws_token(il, "alpine") {
                return Ok(Distribution::Alpine);
            }
            if has_ws_token(il, "fedora") {
                return Ok(Self::match_fedora_variant(&rec.variant));
            }
        }
        Err(TopgradeError::UnknownDistribution)
    }

    /// Resolves the host's distribution from the two filesystem facts
    /// the caller gathered: whether the multi-strata marker directory
    /// exists, and the contents of the identification file if it exists.
    ///
    /// The marker short-circuits everything else; an absent file, an
    /// empty primary section or an unmatched record is a classification
    /// failure, never a default variant.
    pub fn detect(bedrock_marker: bool, os_release: Option<&str>) -> (r: Result<
        Distribution,
        TopgradeError,
    >)
        ensures
            r == spec_detect(bedrock_marker, match os_release {
                Some(s) => Some(s@),
                None => None,
            }),
            bedrock_marker ==> r == Ok::<Distribution, TopgradeError>(Distribution::Bedrock),
            !bedrock_marker && os_release is None ==> r == Err::<Distribution, TopgradeError>(
                TopgradeError::EmptyOsRelease,
            ),
    {
        if bedrock_marker {
            return Ok(Distribution::Bedrock);
        }
        match os_release {
            None => Err(TopgradeError::EmptyOsRelease),
            Some(s) => {
                match OsReleaseInfo::parse(s) {
                    Err(_) => Err(TopgradeError::InvalidOsRelease),
                    Ok(rec) => {
                        if !rec.has_entries() {
                            Err(TopgradeError::EmptyOsRelease)
                        } else {
                            Self::parse_os_release(&rec)
                        }
                    },
                }
            },
        }
    }

    /// Whether the end-of-run summary applies to this variant: only the
    /// Arch family reports kept-back configuration files there.
    pub fn show_summary(self) -> (r: bool)
        ensures
            r == (self == Distribution::Arch),
    {
        matches!(self, Distribution::Arch)
    }

    /// Whether this variant belongs to the RedHat family.
    pub fn redhat_based(self) -> (r: bool)
        ensures
            r == (self == Distribution::CentOS || self == Distribution::Fedora),
    {
        matches!(self, Distribution::CentOS | Distribution::Fedora)
    }
}

/// A record whose `ID` stands in the static table resolves to its mapped
/// variant deterministically, consulting neither `NAME` nor `ID_LIKE`:
/// two records agreeing on `ID` and `VARIANT` classify alike, and the
/// classification always succeeds.
pub proof fn lemma_direct_id_ignores_fallback(a: OsReleaseView, b: OsReleaseView)
    requires
        a.id == b.id,
        a.variant == b.variant,
        a.id matches Some(i) && direct_match(i),
    ensures
        spec_classify(a) == spec_classify(b),
        spec_classify(a) is Ok,
{
}

/// A record with no direct `ID` match and no Vanilla `NAME` marker
/// resolves by its `ID_LIKE` tokens through the fixed fallback order
/// debian/ubuntu, centos, suse, arch/archlinux, alpine, fedora — the
/// first family with a matching token wins, and a record matching none
/// of them fails to classify.
pub proof fn lemma_id_like_fallback(r: OsReleaseView, il: Seq<char>)
    requires
        match r.id {
            Some(i) => !direct_match(i),
            None => true,
        },
        !(r.name matches Some(n) && contains_sub(n, "Vanilla"@)),
        r.id_like == Some(il),
    ensures
        ({
            let tk = tokens(il);
            &&& (tk.contains("debian"@) || tk.contains("ubuntu"@)) ==> spec_classify(r) == Ok::<
                Distribution,
                (),
            >(Distribution::Debian)
            &&& (!tk.contains("debian"@) && !tk.contains("ubuntu"@) && tk.contains("centos"@))
                ==> spec_classify(r) == Ok::<Distribution, ()>(Distribution::CentOS)
            &&& (!tk.contains("debian"@) && !tk.contains("ubuntu"@) && !tk.contains("centos"@)
                && tk.contains("suse"@)) ==> spec_classify(r) == Ok::<Distribution, ()>(
                if r.id matches Some(i) && contains_sub(i, "tumbleweed"@) {
                    Distribution::OpenSuseTumbleweed
                } else {
                    Distribution::Suse
                },
            )
            &&& (!tk.contains("debian"@) && !tk.contains("ubuntu"@) && !tk.contains("centos"@)
                && !tk.contains("suse"@) && (tk.contains("arch"@) || tk.contains("archlinux"@)))
                ==> spec_classify(r) == Ok::<Distribution, ()>(Distribution::Arch)
            &&& (!tk.contains("debian"@) && !tk.contains("ubuntu"@) && !tk.contains("centos"@)
                && !tk.contains("suse"@) && !tk.contains("arch"@) && !tk.contains("archlinux"@)
                && tk.contains("alpine"@)) ==> spec_classify(r) == Ok::<Distribution, ()>(
                Distribution::Alpine,
            )
            &&& (!tk.contains("debian"@) && !tk.contains("ubuntu"@) && !tk.contains("centos"@)
                && !tk.contains("suse"@) && !tk.contains("arch"@) && !tk.contains("archlinux"@)
                && !tk.contains("alpine"@) && tk.contains("fedora"@)) ==> spec_classify(r) == Ok::<
                Distribution,
                (),
            >(spec_fedora_variant(r.variant))
            &&& (!tk.contains("debian"@) && !tk.contains("ubuntu"@) && !tk.contains("centos"@)
                && !tk.contains("suse"@) && !tk.contains("arch"@) && !tk.contains("archlinux"@)
                && !tk.contains("alpine"@) && !tk.contains("fedora"@)) ==> spec_classify(r) is Err
        }),
{
}

} // verus!
