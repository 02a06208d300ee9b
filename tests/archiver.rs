use backup_tar::backup::{
    Archive, ArchiveError, ArchiveType, BackupContext, CompressAlgorithm, FileAction, Options,
};

fn options(stash: &str, huge: usize, split: usize, alg: CompressAlgorithm) -> Options {
    Options {
        stash_dir: stash.to_string(),
        threshold_huge_file: huge,
        threshold_split_tar: split,
        compress_algorithm: alg,
    }
}

/// Hands one file to the context the way the pipeline does; returns the path
/// of a container opened for it, if any, and the archive emitted, if any.
fn feed(ctx: &mut BackupContext, path: &str, size: usize) -> (Option<String>, Option<Archive>) {
    match ctx.archive_single_file(path.to_string(), size).unwrap() {
        FileAction::Bypass(a) => (None, Some(a)),
        FileAction::Append { open_at } => {
            let split = ctx.record_append(size).unwrap();
            let emitted = if split { ctx.retrieve_cur_tar() } else { None };
            (open_at, emitted)
        }
    }
}

#[test]
fn default_options_disable_bypass_split_and_compression() {
    let o = Options::default();
    assert_eq!(o.stash_dir, "backup");
    assert_eq!(o.threshold_huge_file, usize::MAX);
    assert_eq!(o.threshold_split_tar, usize::MAX);
    assert_eq!(o.compress_algorithm, CompressAlgorithm::Uncompressed);
}

#[test]
fn huge_file_yields_one_plain_archive_and_no_container() {
    let mut ctx = BackupContext::new(options("stash", 100, usize::MAX, CompressAlgorithm::Uncompressed));
    let (opened, emitted) = feed(&mut ctx, "/data/big", 200);
    assert!(opened.is_none());
    let a = emitted.unwrap();
    assert_eq!(a.archive_type, ArchiveType::Plain);
    assert_eq!(a.content_size, 200);
    assert_eq!(a.path, "/data/big");
    assert!(!ctx.is_open());
    assert!(ctx.retrieve_cur_tar().is_none());
}

#[test]
fn huge_file_leaves_open_container_untouched() {
    let mut ctx = BackupContext::new(options("s", 100, usize::MAX, CompressAlgorithm::Uncompressed));
    let (opened, emitted) = feed(&mut ctx, "/a", 50);
    assert_eq!(opened.unwrap(), "s/1.tar");
    assert!(emitted.is_none());
    let (_, big) = feed(&mut ctx, "/b", 101);
    assert_eq!(big.unwrap().archive_type, ArchiveType::Plain);
    let (opened, _) = feed(&mut ctx, "/c", 30);
    assert!(opened.is_none());
    let last = ctx.retrieve_cur_tar().unwrap();
    assert_eq!(last.content_size, 80);
    assert_eq!(last.path, "s/1.tar");
}

#[test]
fn file_at_huge_threshold_is_archived() {
    let mut ctx = BackupContext::new(options("s", 100, usize::MAX, CompressAlgorithm::Uncompressed));
    let (opened, emitted) = feed(&mut ctx, "/a", 100);
    assert_eq!(opened.unwrap(), "s/1.tar");
    assert!(emitted.is_none());
}

#[test]
fn container_splits_after_the_file_that_crosses_the_threshold() {
    let mut ctx = BackupContext::new(options("/stash", usize::MAX, 1000, CompressAlgorithm::Uncompressed));
    let (o1, e1) = feed(&mut ctx, "/data/a", 400);
    assert_eq!(o1.unwrap(), "/stash/1.tar");
    assert!(e1.is_none());
    let (o2, e2) = feed(&mut ctx, "/data/b", 400);
    assert!(o2.is_none());
    assert!(e2.is_none());
    let (o3, e3) = feed(&mut ctx, "/data/c", 400);
    assert!(o3.is_none());
    let first = e3.unwrap();
    assert_eq!(first.archive_type, ArchiveType::Tar);
    assert_eq!(first.content_size, 1200);
    assert_eq!(first.path, "/stash/1.tar");
    assert!(!ctx.is_open());
    let (o4, e4) = feed(&mut ctx, "/data/d", 400);
    assert_eq!(o4.unwrap(), "/stash/2.tar");
    assert!(e4.is_none());
    let second = ctx.retrieve_cur_tar().unwrap();
    assert_eq!(second.content_size, 400);
    assert_eq!(second.path, "/stash/2.tar");
    assert!(ctx.retrieve_cur_tar().is_none());
}

#[test]
fn total_equal_to_split_threshold_does_not_split() {
    let mut ctx = BackupContext::new(options("x", usize::MAX, 1000, CompressAlgorithm::Uncompressed));
    feed(&mut ctx, "/a", 600);
    let (_, e) = feed(&mut ctx, "/b", 400);
    assert!(e.is_none());
    assert_eq!(ctx.retrieve_cur_tar().unwrap().content_size, 1000);
}

#[test]
fn exhausted_input_flushes_one_container_with_the_sum() {
    let mut ctx = BackupContext::new(Options::default());
    for (p, s) in [("/a", 10usize), ("/b", 20), ("/c", 30)] {
        let (_, e) = feed(&mut ctx, p, s);
        assert!(e.is_none());
    }
    let a = ctx.retrieve_cur_tar().unwrap();
    assert_eq!(a.archive_type, ArchiveType::Tar);
    assert_eq!(a.content_size, 60);
    assert_eq!(a.path, "backup/1.tar");
    assert!(ctx.retrieve_cur_tar().is_none());
}

#[test]
fn no_input_emits_nothing() {
    let mut ctx = BackupContext::new(Options::default());
    assert!(!ctx.is_open());
    assert!(ctx.retrieve_cur_tar().is_none());
}

#[test]
fn compressed_containers_use_the_lz4_extension() {
    let mut ctx = BackupContext::new(options("out/", usize::MAX, usize::MAX, CompressAlgorithm::Lz4Flex));
    let (o, _) = feed(&mut ctx, "/a", 1);
    assert_eq!(o.unwrap(), "out/1.tar.lz4");
    assert_eq!(ctx.retrieve_cur_tar().unwrap().path, "out/1.tar.lz4");
}

#[test]
fn empty_stash_dir_names_containers_bare() {
    let mut ctx = BackupContext::new(options("", usize::MAX, usize::MAX, CompressAlgorithm::Uncompressed));
    let (o, _) = feed(&mut ctx, "/a", 1);
    assert_eq!(o.unwrap(), "1.tar");
    assert_eq!(ctx.cur_tar_path(), "1.tar");
}

#[test]
fn counter_reaches_two_digits() {
    let mut ctx = BackupContext::new(options("d", usize::MAX, 0, CompressAlgorithm::Uncompressed));
    let mut last = String::new();
    for i in 0..10 {
        let (o, e) = feed(&mut ctx, "/f", 1);
        assert_eq!(o.unwrap(), format!("d/{}.tar", i + 1));
        last = e.unwrap().path;
    }
    assert_eq!(last, "d/10.tar");
}

#[test]
fn next_tar_path_advances_the_counter() {
    let mut ctx = BackupContext::new(options("d", usize::MAX, usize::MAX, CompressAlgorithm::Uncompressed));
    assert_eq!(ctx.cur_tar_path(), "d/0.tar");
    assert_eq!(ctx.next_tar_path().unwrap(), "d/1.tar");
    assert_eq!(ctx.cur_tar_path(), "d/1.tar");
}

#[test]
fn content_size_overflow_is_reported() {
    let mut ctx = BackupContext::new(Options::default());
    ctx.archive_single_file("/a".to_string(), 5).unwrap();
    assert_eq!(ctx.record_append(usize::MAX - 1), Ok(false));
    assert_eq!(ctx.record_append(2), Err(ArchiveError::SizeOverflow));
    assert_eq!(ctx.retrieve_cur_tar().unwrap().content_size, usize::MAX - 1);
}

#[test]
fn appended_size_is_what_is_accounted() {
    let mut ctx = BackupContext::new(Options::default());
    ctx.archive_single_file("/a".to_string(), 5).unwrap();
    assert_eq!(ctx.record_append(7), Ok(false));
    assert_eq!(ctx.retrieve_cur_tar().unwrap().content_size, 7);
}
