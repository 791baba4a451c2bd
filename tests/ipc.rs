use gitui::ipc::{IpcError, IpcLayout, SHMEM_SIZE};

#[test]
fn todo_path_round_trips_through_region() {
    let layout = IpcLayout { ready_size: 64, shutdown_size: 64 };
    let mut region = vec![7u8; SHMEM_SIZE];
    let path = b"/tmp/repo/.git/rebase-merge/git-rebase-todo".to_vec();
    assert!(layout.set_str(&mut region, &path).is_ok());
    assert_eq!(region[0], 7);
    assert_eq!(region[128], path.len() as u8);
    assert_eq!(layout.get_str(&region), Ok(path));
}

#[test]
fn too_long_string_is_refused() {
    let layout = IpcLayout { ready_size: 100, shutdown_size: 100 };
    let mut region = vec![0u8; SHMEM_SIZE];
    assert_eq!(layout.capacity(), SHMEM_SIZE - 208);
    let long = vec![b'a'; SHMEM_SIZE - 207];
    assert_eq!(layout.set_str(&mut region, &long), Err(IpcError::StringTooBig));
    assert!(region.iter().all(|b| *b == 0));
    let fits = vec![b'a'; SHMEM_SIZE - 208];
    assert!(layout.set_str(&mut region, &fits).is_ok());
    assert_eq!(layout.get_str(&region).unwrap().len(), SHMEM_SIZE - 208);
}

#[test]
fn corrupt_length_is_refused() {
    let layout = IpcLayout { ready_size: 8, shutdown_size: 8 };
    let mut region = vec![0u8; SHMEM_SIZE];
    region[16 + 7] = 1;
    assert_eq!(layout.get_str(&region), Err(IpcError::BadRegion));
}
