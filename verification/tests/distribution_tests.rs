use topgrade::distribution::Distribution;
use topgrade::osrelease::OsReleaseInfo;

fn test_template(os_release_file: &str, expected_distribution: Distribution) {
    let os_release = OsReleaseInfo::parse(os_release_file).unwrap();
    assert_eq!(
        Distribution::parse_os_release(&os_release).unwrap(),
        expected_distribution
    );
}

#[test]
fn test_wolfi() {
    test_template(
        "ID=wolfi\nNAME=\"Wolfi\"\nPRETTY_NAME=\"Wolfi\"\nVERSION_ID=\"20230201\"\n",
        Distribution::Wolfi,
    );
}

#[test]
fn test_arch_linux() {
    test_template(
        "NAME=\"Arch Linux\"\nPRETTY_NAME=\"Arch Linux\"\nID=arch\nBUILD_ID=rolling\n",
        Distribution::Arch,
    );
    test_template(
        "NAME=\"Arch Linux 32\"\nPRETTY_NAME=\"Arch Linux 32\"\nID=arch32\nID_LIKE=arch\nBUILD_ID=rolling\n",
        Distribution::Arch,
    );
}

#[test]
fn test_centos() {
    test_template(
        "NAME=\"CentOS Linux\"\nVERSION=\"8\"\nID=\"centos\"\nID_LIKE=\"rhel fedora\"\n",
        Distribution::CentOS,
    );
}

#[test]
fn test_rhel() {
    test_template(
        "NAME=\"Red Hat Enterprise Linux\"\nVERSION=\"8.2 (Ootpa)\"\nID=\"rhel\"\nID_LIKE=\"fedora\"\n",
        Distribution::CentOS,
    );
}

#[test]
fn test_clearlinux() {
    test_template(
        "NAME=\"Clear Linux OS\"\nVERSION=1\nID=clear-linux-os\nID_LIKE=clear-linux-os\n",
        Distribution::ClearLinux,
    );
}

#[test]
fn test_debian() {
    test_template(
        "PRETTY_NAME=\"Debian GNU/Linux 11 (bullseye)\"\nNAME=\"Debian GNU/Linux\"\nID=debian\n",
        Distribution::Debian,
    );
}

#[test]
fn test_ubuntu() {
    test_template(
        "NAME=\"Ubuntu\"\nVERSION=\"20.04.1 LTS (Focal Fossa)\"\nID=ubuntu\nID_LIKE=debian\n",
        Distribution::Debian,
    );
}

#[test]
fn test_mint() {
    test_template(
        "NAME=\"Linux Mint\"\nVERSION=\"20.1 (Ulyssa)\"\nID=linuxmint\nID_LIKE=ubuntu\n",
        Distribution::Debian,
    );
}

#[test]
fn test_opensuse() {
    test_template(
        "NAME=\"openSUSE Leap\"\nVERSION=\"15.2\"\nID=\"opensuse-leap\"\nID_LIKE=\"suse opensuse\"\n",
        Distribution::Suse,
    );
}

#[test]
fn test_oraclelinux() {
    test_template(
        "NAME=\"Oracle Linux Server\"\nVERSION=\"8.3\"\nID=\"ol\"\nID_LIKE=\"fedora\"\n",
        Distribution::CentOS,
    );
}

#[test]
fn test_fedora() {
    test_template(
        "NAME=Fedora\nVERSION=\"32 (Workstation Edition)\"\nID=fedora\nVARIANT=\"Workstation Edition\"\nVARIANT_ID=workstation\n",
        Distribution::Fedora,
    );
}

#[test]
fn test_fedora_immutable() {
    test_template(
        "NAME=\"Fedora Linux\"\nVERSION=\"39.20231124.0 (Silverblue)\"\nID=fedora\nVARIANT=\"Silverblue\"\nVARIANT_ID=silverblue\n",
        Distribution::FedoraImmutable,
    );
    test_template(
        "NAME=\"Fedora Linux\"\nVERSION=\"39.20231124.0 (Kinoite)\"\nID=fedora\nVARIANT=\"Kinoite\"\nVARIANT_ID=kinoite\n",
        Distribution::FedoraImmutable,
    );
    test_template(
        "NAME=\"Fedora Linux\"\nVERSION=\"39.20231124.0 (Onyx)\"\nID=fedora\nVARIANT=\"Onyx\"\nVARIANT_ID=onyx\n",
        Distribution::FedoraImmutable,
    );
    test_template(
        "NAME=\"Fedora Linux\"\nVERSION=\"39.20231124.0 (Sericea)\"\nID=fedora\nVARIANT=\"Sericea\"\nVARIANT_ID=sericea\n",
        Distribution::FedoraImmutable,
    );
    test_template(
        "NAME=\"Fedora Linux\"\nVERSION=\"39 (IoT Edition)\"\nID=fedora\nVARIANT=\"IoT Edition\"\nVARIANT_ID=iot\n",
        Distribution::FedoraImmutable,
    );
    test_template(
        "NAME=\"Fedora Linux\"\nVERSION=\"39.20231124.0 (Sway Atomic)\"\nID=fedora\nVARIANT=\"Sway Atomic\"\nVARIANT_ID=sway-atomic\n",
        Distribution::FedoraImmutable,
    );
}

#[test]
fn test_manjaro() {
    test_template(
        "NAME=\"Manjaro Linux\"\nID=manjaro\nID_LIKE=arch\nBUILD_ID=rolling\n",
        Distribution::Arch,
    );
}

#[test]
fn test_manjaro_arm() {
    test_template(
        "NAME=\"Manjaro-ARM\"\nID=manjaro-arm\nID_LIKE=manjaro arch\n",
        Distribution::Arch,
    );
}

#[test]
fn test_gentoo() {
    test_template(
        "NAME=Gentoo\nID=gentoo\nPRETTY_NAME=\"Gentoo/Linux\"\n",
        Distribution::Gentoo,
    );
}

#[test]
fn test_funtoo() {
    test_template(
        "PRETTY_NAME=\"Funtoo Linux\"\nNAME=Funtoo\nID=funtoo\nID_LIKE=gentoo\n",
        Distribution::Gentoo,
    );
}

#[test]
fn test_exherbo() {
    test_template(
        "NAME=\"Exherbo\"\nPRETTY_NAME=\"Exherbo Linux\"\nID=\"exherbo\"\n",
        Distribution::Exherbo,
    );
}

#[test]
fn test_amazon_linux() {
    test_template(
        "NAME=\"Amazon Linux\"\nVERSION=\"2\"\nID=\"amzn\"\nID_LIKE=\"centos rhel fedora\"\n",
        Distribution::CentOS,
    );
}

#[test]
fn test_nixos() {
    test_template(
        "NAME=NixOS\nID=nixos\nVERSION=\"21.05 (Okapi)\"\nPRETTY_NAME=\"NixOS 21.05 (Okapi)\"\n",
        Distribution::NixOS,
    );
}

#[test]
fn test_fedoraremixonwsl() {
    test_template(
        "NAME=\"Fedora Remix for WSL\"\nVERSION=\"33\"\nID=fedoraremix\nID_LIKE=fedora\n",
        Distribution::Fedora,
    );
}

#[test]
fn test_pengwinonwsl() {
    test_template(
        "NAME=\"Pengwin\"\nVERSION=\"10 (buster)\"\nID=wlinux\nID_LIKE=\"ubuntu debian\"\n",
        Distribution::Debian,
    );
}

#[test]
fn test_artix() {
    test_template(
        "NAME=\"Artix Linux\"\nPRETTY_NAME=\"Artix Linux\"\nID=artix\nBUILD_ID=rolling\n",
        Distribution::Arch,
    );
}

#[test]
fn test_garuda() {
    test_template(
        "NAME=\"Garuda Linux\"\nID=garuda\nID_LIKE=arch\nBUILD_ID=rolling\n",
        Distribution::Arch,
    );
}

#[test]
fn test_pureos() {
    test_template(
        "NAME=\"PureOS\"\nVERSION=\"9.0 (amber)\"\nID=pureos\nID_LIKE=debian\n",
        Distribution::Debian,
    );
}

#[test]
fn test_deepin() {
    test_template(
        "PRETTY_NAME=\"Deepin 20.2.2\"\nNAME=\"Deepin\"\nVERSION_ID=\"20.2.2\"\nID=Deepin\n",
        Distribution::Debian,
    );
}

#[test]
fn test_vanilla() {
    test_template(
        "NAME=\"Vanilla OS\"\nVERSION=\"22.10\"\nID=vanilla\nID_LIKE=ubuntu\n",
        Distribution::Vanilla,
    );
}

#[test]
fn test_solus() {
    test_template(
        "NAME=\"Solus\"\nVERSION=\"4.3\"\nID=\"solus\"\nPRETTY_NAME=\"Solus 4.3 Fortitude\"\n",
        Distribution::Solus,
    );
}

#[test]
fn test_nobara() {
    test_template(
        "NAME=\"Nobara Linux\"\nVERSION=\"38\"\nID=nobara\nID_LIKE=\"fedora\"\n",
        Distribution::Nobara,
    );
}

#[test]
fn test_nilrt() {
    test_template(
        "ID=nilrt\nNAME=\"NI Linux Real-Time\"\nVERSION=\"9.1\"\n",
        Distribution::NILRT,
    );
}

#[test]
fn test_coreos() {
    test_template(
        "NAME=\"Fedora Linux\"\nVERSION=\"38.20230709.3.0 (CoreOS)\"\nID=fedora\nVARIANT=\"CoreOS\"\nVARIANT_ID=coreos\n",
        Distribution::FedoraImmutable,
    );
}

#[test]
fn test_aurora() {
    test_template(
        "NAME=\"Aurora\"\nVERSION=\"40.20240810.0 (Kinoite)\"\nID=aurora\nID_LIKE=\"fedora\"\nVARIANT=\"Kinoite\"\n",
        Distribution::FedoraImmutable,
    );
}

#[test]
fn test_bluefin() {
    test_template(
        "NAME=\"Bluefin\"\nVERSION=\"40.20240810.0 (Silverblue)\"\nID=bluefin\nID_LIKE=\"fedora\"\nVARIANT=\"Silverblue\"\n",
        Distribution::FedoraImmutable,
    );
}

#[test]
fn test_bazzite() {
    test_template(
        "NAME=\"Bazzite\"\nVERSION=\"40.20240810.0 (Kinoite)\"\nID=bazzite\nID_LIKE=\"fedora\"\nVARIANT=\"Kinoite\"\n",
        Distribution::FedoraImmutable,
    );
}

#[test]
fn test_cachyos() {
    test_template(
        "NAME=\"CachyOS Linux\"\nPRETTY_NAME=\"CachyOS\"\nID=cachyos\nID_LIKE=arch\nBUILD_ID=rolling\n",
        Distribution::Arch,
    );
}

#[test]
fn test_opensuse_tumbleweed_via_id_like() {
    test_template(
        "NAME=\"openSUSE Tumbleweed\"\nID=\"opensuse-tumbleweed\"\nID_LIKE=\"opensuse suse\"\n",
        Distribution::OpenSuseTumbleweed,
    );
}

#[test]
fn test_direct_id_wins_over_id_like() {
    // A direct table hit never consults the fallback identifiers.
    test_template(
        "ID=debian\nID_LIKE=\"arch alpine\"\nNAME=\"Strange Derivative\"\n",
        Distribution::Debian,
    );
}

#[test]
fn test_id_like_order_debian_first() {
    // The fallback order is fixed: debian/ubuntu wins over suse even
    // when both tokens are present.
    test_template(
        "ID=mystery\nID_LIKE=\"suse debian\"\nNAME=\"Mystery\"\n",
        Distribution::Debian,
    );
}

#[test]
fn test_id_like_token_not_substring() {
    // Token matching splits on whitespace: "debianish" holds "debian"
    // only as a substring, which must not count.
    let rec = OsReleaseInfo::parse("ID=mystery\nID_LIKE=debianish\n").unwrap();
    assert!(Distribution::parse_os_release(&rec).is_err());
}

#[test]
fn test_unknown_distribution_is_error() {
    let rec = OsReleaseInfo::parse("ID=sphinx\nNAME=\"Sphinx OS\"\n").unwrap();
    assert!(Distribution::parse_os_release(&rec).is_err());
}

#[test]
fn test_fedora_unrecognized_variant_is_ordinary() {
    test_template(
        "ID=fedora\nVARIANT=\"Cloud Edition\"\n",
        Distribution::Fedora,
    );
    test_template("ID=fedora\n", Distribution::Fedora);
}

#[test]
fn test_redhat_based() {
    assert!(Distribution::CentOS.redhat_based());
    assert!(Distribution::Fedora.redhat_based());
    assert!(!Distribution::FedoraImmutable.redhat_based());
    assert!(!Distribution::Debian.redhat_based());
}

#[test]
fn test_show_summary_only_for_arch() {
    assert!(Distribution::Arch.show_summary());
    assert!(!Distribution::Debian.show_summary());
    assert!(!Distribution::CentOS.show_summary());
}

#[test]
fn test_detect_bedrock_marker_short_circuits() {
    // The marker wins even when the identification file would resolve
    // to another variant.
    let contents = "ID=debian\n";
    assert_eq!(
        Distribution::detect(true, Some(contents)).unwrap(),
        Distribution::Bedrock
    );
    assert_eq!(
        Distribution::detect(false, Some(contents)).unwrap(),
        Distribution::Debian
    );
    assert_eq!(Distribution::detect(true, None).unwrap(), Distribution::Bedrock);
}

#[test]
fn test_detect_absent_file_is_classification_failure() {
    assert_eq!(
        Distribution::detect(false, None).unwrap_err(),
        topgrade::TopgradeError::EmptyOsRelease
    );
}

#[test]
fn test_detect_empty_file_is_classification_failure() {
    assert_eq!(
        Distribution::detect(false, Some("")).unwrap_err(),
        topgrade::TopgradeError::EmptyOsRelease
    );
    assert_eq!(
        Distribution::detect(false, Some("# only a comment\n")).unwrap_err(),
        topgrade::TopgradeError::EmptyOsRelease
    );
}

#[test]
fn test_detect_unknown_identifier() {
    assert_eq!(
        Distribution::detect(false, Some("ID=sphinx\n")).unwrap_err(),
        topgrade::TopgradeError::UnknownDistribution
    );
}
