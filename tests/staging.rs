use rusted_yadm::error::YadmError;
use rusted_yadm::handler::{
    add_plan, check_source, commit_plan, get_git_user_info, identity, user_identity, AddPlan,
};

#[test]
fn add_plan_resolves_against_home_and_workdir() {
    assert_eq!(
        add_plan("/home/u", "/data/rusted-yadm/repository/", "~/.config/nvim/init.lua"),
        AddPlan {
            source: "/home/u/.config/nvim/init.lua".to_string(),
            destination: "/data/rusted-yadm/repository/.config/nvim/init.lua".to_string(),
            index_path: ".config/nvim/init.lua".to_string(),
        }
    );
    assert_eq!(
        add_plan("/home/u", "/repo", ".bashrc"),
        AddPlan {
            source: "/home/u/.bashrc".to_string(),
            destination: "/repo/.bashrc".to_string(),
            index_path: ".bashrc".to_string(),
        }
    );
}

#[test]
fn missing_source_is_file_not_found() {
    assert_eq!(check_source(true), Ok(()));
    assert_eq!(check_source(false), Err(YadmError::FileNotFound));
}

#[test]
fn commit_on_top_of_head_keeps_message() {
    let p = commit_plan(true, "update vimrc");
    assert!(p.has_parent);
    assert_eq!(p.message, "update vimrc");
}

#[test]
fn first_commit_is_root_with_fixed_message() {
    let p = commit_plan(false, "update vimrc");
    assert!(!p.has_parent);
    assert_eq!(p.message, "Initial commit");
    let q = commit_plan(false, "");
    assert!(!q.has_parent);
    assert_eq!(q.message, "Initial commit");
}

#[test]
fn user_info_is_trimmed() {
    assert_eq!(
        get_git_user_info("Ada Lovelace\n", "  ada@example.org \n"),
        ("Ada Lovelace".to_string(), "ada@example.org".to_string())
    );
    assert_eq!(
        get_git_user_info("\u{a0}\tAda\u{3000}", ""),
        ("Ada".to_string(), String::new())
    );
}

#[test]
fn identity_requires_name_and_email() {
    let id = user_identity("Ada\n", "ada@example.org\n").unwrap();
    assert_eq!(id.name, "Ada");
    assert_eq!(id.email, "ada@example.org");
    assert_eq!(user_identity("\n", "ada@example.org\n"), Err(YadmError::EmptyIdentity));
    assert_eq!(user_identity("Ada", "   "), Err(YadmError::EmptyIdentity));
    assert_eq!(identity(String::new(), "e".to_string()), Err(YadmError::EmptyIdentity));
}
