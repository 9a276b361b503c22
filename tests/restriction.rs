use thop::restriction::{Category, Checker};

fn enabled_checker() -> Checker {
    let mut checker = Checker::new();
    checker.set_enabled(true);
    checker
}

#[test]
fn test_disabled_by_default() {
    let checker = Checker::new();
    assert!(!checker.is_enabled());
    let result = checker.check("rm -rf /");
    assert!(result.allowed);
    assert!(result.rule.is_none());
}

#[test]
fn test_enable_disable() {
    let mut checker = Checker::new();
    checker.set_enabled(true);
    assert!(checker.is_enabled());
    checker.set_enabled(false);
    assert!(!checker.is_enabled());
}

#[test]
fn test_privilege_escalation() {
    let checker = enabled_checker();
    assert!(!checker.check("sudo ls").allowed);
    assert!(!checker.check("sudo apt-get update").allowed);
    assert!(!checker.check("echo foo | sudo tee /etc/file").allowed);
    assert!(!checker.check("ls; sudo rm file").allowed);
    assert!(!checker.check("cd /tmp && sudo chmod 777 file").allowed);
    assert!(!checker.check("su -").allowed);
    assert!(!checker.check("su - root").allowed);
    assert!(!checker.check("doas ls").allowed);
    assert!(!checker.check("pkexec apt update").allowed);

    assert!(checker.check("cat /etc/sudoers").allowed);
    assert!(checker.check("echo 'use sudo to...'").allowed);
    assert!(checker.check("result=success").allowed);
    assert!(checker.check("resume").allowed);
}

#[test]
fn test_destructive_file_ops() {
    let checker = enabled_checker();
    assert!(!checker.check("rm file.txt").allowed);
    assert!(!checker.check("rm -rf /tmp/dir").allowed);
    assert!(!checker.check("rm -f important.txt").allowed);
    assert!(!checker.check("rmdir empty_dir").allowed);
    assert!(!checker.check("shred secret.txt").allowed);
    assert!(!checker.check("unlink symlink").allowed);
    assert!(!checker.check("dd if=/dev/zero of=/dev/sda").allowed);
    assert!(!checker.check("wipe -f disk").allowed);
    assert!(!checker.check("ls && rm file").allowed);
    assert!(!checker.check("truncate -s 0 important.log").allowed);

    assert!(checker.check("mkdir new_dir").allowed);
    assert!(checker.check("touch new_file").allowed);
    assert!(checker.check("mv old.txt new.txt").allowed);
    assert!(checker.check("cp source.txt dest.txt").allowed);
    assert!(checker.check("ls -la").allowed);
    assert!(checker.check("cat file.txt").allowed);
    assert!(checker.check("grep 'rm' script.sh").allowed);
    assert!(checker.check("echo 'do not rm this'").allowed);
}

#[test]
fn test_system_modifications() {
    let checker = enabled_checker();
    assert!(!checker.check("chmod 755 script.sh").allowed);
    assert!(!checker.check("chmod 777 /var/www").allowed);
    assert!(!checker.check("chown root:root file").allowed);
    assert!(!checker.check("chgrp admin file").allowed);
    assert!(!checker.check("mkfs /dev/sdb1").allowed);
    assert!(!checker.check("mkfs.ext4 /dev/sdb1").allowed);
    assert!(!checker.check("mkfs.xfs /dev/sdc1").allowed);
    assert!(!checker.check("fdisk /dev/sda").allowed);
    assert!(!checker.check("mount /dev/sdb1 /mnt").allowed);
    assert!(!checker.check("umount /mnt").allowed);
    assert!(!checker.check("shutdown -h now").allowed);
    assert!(!checker.check("reboot now").allowed);
    assert!(!checker.check("poweroff now").allowed);
    assert!(!checker.check("useradd newuser").allowed);
    assert!(!checker.check("userdel olduser").allowed);
    assert!(!checker.check("usermod -aG docker user").allowed);
    assert!(!checker.check("passwd user").allowed);
    assert!(!checker.check("systemctl stop nginx").allowed);
    assert!(!checker.check("systemctl start docker").allowed);
    assert!(!checker.check("service apache2 restart").allowed);
    assert!(!checker.check("insmod module.ko").allowed);
    assert!(!checker.check("rmmod module").allowed);
    assert!(!checker.check("modprobe driver").allowed);

    assert!(checker.check("ls -la").allowed);
    assert!(checker.check("stat file.txt").allowed);
    assert!(checker.check("id").allowed);
    assert!(checker.check("whoami").allowed);
}

#[test]
fn test_empty_and_whitespace() {
    let checker = enabled_checker();
    assert!(checker.check("").allowed);
    assert!(checker.check("   ").allowed);
    assert!(checker.check("\t\t").allowed);
    assert!(checker.check("\n\n").allowed);
}

#[test]
fn test_complex_commands() {
    let checker = enabled_checker();
    assert!(!checker.check("cd /tmp && rm -rf *").allowed);
    assert!(!checker.check("rm -rf dir &").allowed);
    assert!(!checker.check("rm file 2>/dev/null").allowed);

    assert!(checker.check("cat file | grep pattern | wc -l").allowed);
    assert!(checker.check("echo $(date)").allowed);
    assert!(checker.check("pwd && ls && echo done").allowed);
    assert!(checker.check("sleep 10 &").allowed);
}

#[test]
fn test_category_description() {
    assert_eq!(Category::PrivilegeEscalation.description(), "Privilege escalation");
    assert_eq!(Category::DestructiveFile.description(), "Destructive file operation");
    assert_eq!(Category::SystemModification.description(), "System modification");
}

#[test]
fn test_check_result_accessors() {
    let checker = enabled_checker();

    let result = checker.check("sudo ls");
    assert!(!result.allowed);
    assert_eq!(result.command(), Some("sudo"));
    assert_eq!(result.category(), Some(Category::PrivilegeEscalation));

    let result = checker.check("rm file");
    assert!(!result.allowed);
    assert_eq!(result.command(), Some("rm"));
    assert_eq!(result.category(), Some(Category::DestructiveFile));

    let result = checker.check("ls -la");
    assert!(result.allowed);
    assert!(result.command().is_none());
    assert!(result.category().is_none());
}

#[test]
fn escalation_after_separators_is_refused_by_its_category() {
    let checker = enabled_checker();
    for cmd in ["sudo ls", "ls; sudo rm f", "a && sudo b"] {
        let result = checker.check(cmd);
        assert!(!result.allowed, "{}", cmd);
        assert_eq!(result.category(), Some(Category::PrivilegeEscalation), "{}", cmd);
    }
    assert!(checker.check("echo 'use sudo'").allowed);
    assert!(checker.check("grep rm file").allowed);
}

#[test]
fn disabling_allows_every_refused_command_again() {
    let mut checker = enabled_checker();
    let refused = ["sudo ls", "ls; sudo rm f", "a && sudo b", "rm -rf /", "> file", "mkfs.ext4 /dev/x"];
    for cmd in refused {
        assert!(!checker.check(cmd).allowed, "{}", cmd);
    }
    checker.set_enabled(false);
    for cmd in refused {
        let result = checker.check(cmd);
        assert!(result.allowed, "{}", cmd);
        assert!(result.rule.is_none());
    }
}

#[test]
fn redirect_and_truncate_rules_name_their_command() {
    let checker = enabled_checker();
    assert_eq!(checker.check("> important.log").command(), Some("> redirect"));
    assert_eq!(checker.check("truncate -s 0 x").command(), Some("truncate"));
    assert_eq!(checker.check("mkfs.xfs /dev/sdc1").command(), Some("mkfs"));
    assert_eq!(checker.check("aa-enforce profile").command(), Some("aa-enforce"));
    assert_eq!(checker.check("  sudo ls  ").command(), Some("sudo"));
}

#[test]
fn command_patterns_escape_the_name() {
    let checker = Checker::new();
    let rules = checker.rule_list();
    let rule = rules.iter().find(|r| r.command() == "aa-enforce").unwrap();
    assert_eq!(rule.pattern(), "(?:^|[|;&])\\s*aa\\-enforce\\s");
    assert_eq!(rule.category(), Category::SystemModification);
    assert_eq!(rules.len(), 4 + 9 + 30);
}
