use fc_block::block::{BackendInfo, Block, BlockError, BlockState};
use fc_block::drive::{BlockDeviceConfig, CacheType, FileEngineType};
use fc_block::rate_limiter::{BucketUpdate, RateLimiterConfig, TokenBucket, TokenBucketConfig};
use fc_block::vhost_user_block::{VhostUserBlockConfig, VhostUserBlockError};
use fc_block::virtio::TYPE_BLOCK;
use fc_block::virtio_block::{PersistError, PrepareSaveWork, VirtioBlockConfig, VirtioBlockError};

fn virtio_config() -> BlockDeviceConfig {
    BlockDeviceConfig {
        drive_id: String::from("rootfs"),
        partuuid: Some(String::from("0eaa91a0-01")),
        is_root_device: true,
        cache_type: CacheType::Unsafe,
        is_read_only: None,
        path_on_host: Some(String::from("/tmp/rootfs.ext4")),
        rate_limiter: None,
        file_engine_type: None,
        socket: None,
    }
}

fn vhost_user_config() -> BlockDeviceConfig {
    BlockDeviceConfig {
        drive_id: String::from("data"),
        partuuid: None,
        is_root_device: false,
        cache_type: CacheType::Writeback,
        is_read_only: None,
        path_on_host: None,
        rate_limiter: None,
        file_engine_type: None,
        socket: Some(String::from("/tmp/vhost.sock")),
    }
}

const MIB: u64 = 1 << 20;

fn make_queues_ready(b: &mut Block) {
    for q in b.queues_mut() {
        q.ready = true;
    }
}

fn activate(b: &mut Block) {
    make_queues_ready(b);
    assert_eq!(b.activate(true), Ok(()));
}

fn virtio_block() -> Block {
    Block::new(virtio_config(), BackendInfo::Disk { size: MIB + 100 }).unwrap()
}

fn vhost_user_block(features: u64, protocol_features: u64) -> Block {
    Block::new(
        vhost_user_config(),
        BackendInfo::VhostUser { features, protocol_features, config_space: vec![1, 2, 3, 4] },
    )
    .unwrap()
}

#[test]
fn config_kinds() {
    assert!(VirtioBlockConfig::try_from(&virtio_config()).is_ok());
    assert_eq!(
        VhostUserBlockConfig::try_from(&virtio_config()),
        Err(VhostUserBlockError::Config)
    );
    assert!(VhostUserBlockConfig::try_from(&vhost_user_config()).is_ok());
    assert_eq!(VirtioBlockConfig::try_from(&vhost_user_config()), Err(VirtioBlockError::Config));

    // A path and a socket together describe no backend.
    let mut both = virtio_config();
    both.socket = Some(String::from("/tmp/s"));
    assert_eq!(VirtioBlockConfig::try_from(&both), Err(VirtioBlockError::Config));
    assert_eq!(VhostUserBlockConfig::try_from(&both), Err(VhostUserBlockError::Config));

    // A socket with a rate limiter describes no backend.
    let mut vhost_rl = vhost_user_config();
    vhost_rl.rate_limiter = Some(RateLimiterConfig::default());
    assert_eq!(VhostUserBlockConfig::try_from(&vhost_rl), Err(VhostUserBlockError::Config));

    // A socket with a read-only flag describes no backend.
    let mut vhost_ro = vhost_user_config();
    vhost_ro.is_read_only = Some(true);
    assert_eq!(VhostUserBlockConfig::try_from(&vhost_ro), Err(VhostUserBlockError::Config));
    assert_eq!(
        Block::new(
            vhost_ro,
            BackendInfo::VhostUser { features: 0, protocol_features: 0, config_space: vec![] }
        )
        .err(),
        Some(BlockError::InvalidBlockConfig)
    );
}

#[test]
fn virtio_config_defaults() {
    let c = VirtioBlockConfig::try_from(&virtio_config()).unwrap();
    assert!(!c.is_read_only);
    assert_eq!(c.file_engine_type, FileEngineType::Sync);
    assert_eq!(c.path_on_host, "/tmp/rootfs.ext4");
    let back: BlockDeviceConfig = c.into();
    assert_eq!(back.is_read_only, Some(false));
    assert_eq!(back.file_engine_type, Some(FileEngineType::Sync));
    assert_eq!(back.socket, None);
}

#[test]
fn vhost_user_config_into_block_config() {
    let c = VhostUserBlockConfig::try_from(&vhost_user_config()).unwrap();
    let back: BlockDeviceConfig = c.into();
    assert_eq!(back, vhost_user_config());
}

#[test]
fn new_invalid_config() {
    let mut c = virtio_config();
    c.path_on_host = None;
    assert_eq!(
        Block::new(c, BackendInfo::Disk { size: 0 }).err(),
        Some(BlockError::InvalidBlockConfig)
    );
}

#[test]
fn new_mismatched_backend() {
    assert_eq!(
        Block::new(
            virtio_config(),
            BackendInfo::VhostUser { features: 0, protocol_features: 0, config_space: vec![] }
        )
        .err(),
        Some(BlockError::InvalidBlockBackend)
    );
    assert_eq!(
        Block::new(vhost_user_config(), BackendInfo::Disk { size: 0 }).err(),
        Some(BlockError::InvalidBlockBackend)
    );
}

#[test]
fn new_virtio_identity_and_features() {
    let b = virtio_block();
    assert!(!b.is_vhost_user());
    assert_eq!(b.id(), "rootfs");
    assert!(b.root_device());
    assert!(!b.read_only());
    assert_eq!(b.partuuid(), &Some(String::from("0eaa91a0-01")));
    assert_eq!(b.avail_features(), (1u64 << 32) | (1u64 << 29));
    assert_eq!(b.acked_features(), 0);
    assert_eq!(b.device_type(), TYPE_BLOCK);
    assert_eq!(b.device_type(), 2);
    assert!(!b.is_activated());
    assert_eq!(b.queues().len(), 1);
    assert_eq!(b.queues()[0].max_size, 256);
    assert_eq!(b.queues()[0].size, 256);
    assert!(!b.queues()[0].ready);
}

#[test]
fn new_virtio_writeback_read_only_features() {
    let mut c = virtio_config();
    c.cache_type = CacheType::Writeback;
    c.is_read_only = Some(true);
    let b = Block::new(c, BackendInfo::Disk { size: 0 }).unwrap();
    assert!(b.read_only());
    assert_eq!(b.avail_features(), (1u64 << 32) | (1u64 << 29) | (1u64 << 9) | (1u64 << 5));
}

#[test]
fn virtio_capacity_in_config_space() {
    // (1 MiB + 100) bytes hold 2048 whole sectors.
    let b = virtio_block();
    let mut data = [0xffu8; 8];
    b.read_config(0, &mut data);
    assert_eq!(data, [0x00, 0x08, 0, 0, 0, 0, 0, 0]);
}

#[test]
fn read_config_partial_and_out_of_range() {
    let b = virtio_block();
    let mut data = [0xaau8; 4];
    b.read_config(6, &mut data);
    assert_eq!(data, [0, 0, 0xaa, 0xaa]);

    let mut data = [0xaau8; 4];
    b.read_config(8, &mut data);
    assert_eq!(data, [0xaa; 4]);

    let mut data = [0xaau8; 4];
    b.read_config(u64::MAX, &mut data);
    assert_eq!(data, [0xaa; 4]);

    let mut data = [0xaau8; 2];
    b.read_config(1, &mut data);
    assert_eq!(data, [0x08, 0]);
}

#[test]
fn write_config_then_read() {
    let mut b = virtio_block();
    b.write_config(2, &[7, 8, 9]);
    let mut data = [0u8; 3];
    b.read_config(2, &mut data);
    assert_eq!(data, [7, 8, 9]);
    let mut all = [0u8; 8];
    b.read_config(0, &mut all);
    assert_eq!(all, [0x00, 0x08, 7, 8, 9, 0, 0, 0]);
}

#[test]
fn write_config_that_does_not_fit_changes_nothing() {
    let mut b = virtio_block();
    b.write_config(6, &[1, 2, 3]);
    b.write_config(u64::MAX, &[1]);
    let mut all = [0u8; 8];
    b.read_config(0, &mut all);
    assert_eq!(all, [0x00, 0x08, 0, 0, 0, 0, 0, 0]);
}

#[test]
fn vhost_user_config_space_is_read_only() {
    let mut b = vhost_user_block(u64::MAX, u64::MAX);
    b.write_config(0, &[9, 9]);
    let mut data = [0u8; 4];
    b.read_config(0, &mut data);
    assert_eq!(data, [1, 2, 3, 4]);
}

#[test]
fn new_vhost_user_negotiation() {
    let b = vhost_user_block(u64::MAX, u64::MAX);
    assert!(b.is_vhost_user());
    let requested = (1u64 << 32) | (1u64 << 29) | (1u64 << 30) | (1u64 << 5) | (1u64 << 9);
    assert_eq!(b.avail_features(), requested);
    assert_eq!(b.acked_features(), 1u64 << 30);
    assert!(b.read_only());
    assert_eq!(b.id(), "data");
    assert!(!b.root_device());
    assert_eq!(b.partuuid(), &None);

    // A backend without read-only and protocol features: not read-only, and
    // no configuration space.
    let b = vhost_user_block(1u64 << 32, u64::MAX);
    assert_eq!(b.avail_features(), 1u64 << 32);
    assert_eq!(b.acked_features(), 0);
    assert!(!b.read_only());
    let mut data = [0xaau8; 2];
    b.read_config(0, &mut data);
    assert_eq!(data, [0xaa, 0xaa]);

    // Protocol features without the configuration feature: no configuration
    // space either.
    let b = vhost_user_block(u64::MAX, 0);
    let mut data = [0xaau8; 2];
    b.read_config(0, &mut data);
    assert_eq!(data, [0xaa, 0xaa]);
}

#[test]
fn config_round_trip_virtio() {
    let b = virtio_block();
    let c = b.config();
    let mut expected = virtio_config();
    expected.is_read_only = Some(false);
    expected.file_engine_type = Some(FileEngineType::Sync);
    assert_eq!(c, expected);
    let again = Block::new(c.clone(), BackendInfo::Disk { size: MIB + 100 }).unwrap();
    assert_eq!(again.config(), c);
}

#[test]
fn config_round_trip_vhost_user() {
    let b = vhost_user_block(u64::MAX, u64::MAX);
    assert_eq!(b.config(), vhost_user_config());
}

#[test]
fn config_reports_rate_limiter() {
    let mut c = virtio_config();
    c.rate_limiter = Some(RateLimiterConfig {
        bandwidth: Some(TokenBucketConfig { size: 1000, one_time_burst: Some(0), refill_time: 100 }),
        ops: Some(TokenBucketConfig { size: 0, one_time_burst: None, refill_time: 100 }),
    });
    let b = Block::new(c, BackendInfo::Disk { size: 0 }).unwrap();
    assert_eq!(
        b.config().rate_limiter,
        Some(RateLimiterConfig {
            bandwidth: Some(TokenBucketConfig { size: 1000, one_time_burst: None, refill_time: 100 }),
            ops: None,
        })
    );
}

#[test]
fn update_disk_image_virtio() {
    let mut b = virtio_block();
    assert_eq!(b.update_disk_image(String::from("/tmp/other.ext4"), 4096), Ok(()));
    assert_eq!(b.config().path_on_host, Some(String::from("/tmp/other.ext4")));
    let mut data = [0u8; 8];
    b.read_config(0, &mut data);
    assert_eq!(data, [8, 0, 0, 0, 0, 0, 0, 0]);
}

#[test]
fn update_disk_image_vhost_user() {
    let mut b = vhost_user_block(u64::MAX, u64::MAX);
    assert_eq!(
        b.update_disk_image(String::from("/tmp/x"), 4096),
        Err(BlockError::InvalidBlockBackend)
    );
    assert_eq!(b.config(), vhost_user_config());
}

#[test]
fn update_rate_limiter_virtio() {
    let mut b = virtio_block();
    assert_eq!(b.config().rate_limiter, None);
    assert_eq!(
        b.update_rate_limiter(
            BucketUpdate::Update(TokenBucket::new(100, 0, 10).unwrap()),
            BucketUpdate::Unchanged
        ),
        Ok(())
    );
    assert_eq!(
        b.config().rate_limiter,
        Some(RateLimiterConfig {
            bandwidth: Some(TokenBucketConfig { size: 100, one_time_burst: None, refill_time: 10 }),
            ops: None,
        })
    );
    assert_eq!(b.update_rate_limiter(BucketUpdate::Disabled, BucketUpdate::Disabled), Ok(()));
    assert_eq!(b.config().rate_limiter, None);
}

#[test]
fn update_rate_limiter_vhost_user() {
    let mut b = vhost_user_block(u64::MAX, u64::MAX);
    assert_eq!(
        b.update_rate_limiter(BucketUpdate::Disabled, BucketUpdate::Disabled),
        Err(BlockError::InvalidBlockBackend)
    );
}

#[test]
fn update_config_backends() {
    let mut b = virtio_block();
    assert_eq!(b.update_config(vec![5, 6]), Err(BlockError::InvalidBlockBackend));
    let mut data = [0u8; 2];
    b.read_config(0, &mut data);
    assert_eq!(data, [0, 8]);

    let mut v = vhost_user_block(u64::MAX, u64::MAX);
    assert_eq!(v.update_config(vec![5, 6]), Ok(()));
    let mut data = [0u8; 3];
    v.read_config(0, &mut data);
    assert_eq!(data, [5, 6, 0]);
}

#[test]
fn acked_features_read_back() {
    let mut b = virtio_block();
    b.set_acked_features(1u64 << 32);
    assert_eq!(b.acked_features(), 1u64 << 32);
    assert_eq!(b.avail_features(), (1u64 << 32) | (1u64 << 29));
    let mut v = vhost_user_block(u64::MAX, u64::MAX);
    v.set_acked_features(42);
    assert_eq!(v.acked_features(), 42);
}

#[test]
fn activate_with_event_idx() {
    let mut b = virtio_block();
    b.set_acked_features((1u64 << 32) | (1u64 << 29));
    activate(&mut b);
    assert!(b.is_activated());
    assert!(b.queues()[0].uses_notif_suppression);

    let mut b = virtio_block();
    activate(&mut b);
    assert!(b.is_activated());
    assert!(!b.queues()[0].uses_notif_suppression);

    let mut v = vhost_user_block(u64::MAX, u64::MAX);
    assert_eq!(v.activate(false), Ok(()));
    assert!(v.is_activated());
}

#[test]
fn queues_mut_changes_queues() {
    let mut b = virtio_block();
    {
        let qs = b.queues_mut();
        qs[0].size = 128;
        qs[0].ready = true;
        qs[0].desc_table_address = 0x1000;
    }
    assert_eq!(b.queues()[0].size, 128);
    assert!(b.queues()[0].ready);
    assert_eq!(b.queues()[0].desc_table_address, 0x1000);
}

#[test]
fn prepare_save_work() {
    let b = virtio_block();
    assert_eq!(b.prepare_save(), PrepareSaveWork::Nothing);
    let mut b = virtio_block();
    activate(&mut b);
    assert_eq!(
        b.prepare_save(),
        PrepareSaveWork::DrainAndFlush { process_async_completions: false }
    );
    let mut c = virtio_config();
    c.file_engine_type = Some(FileEngineType::Async);
    let mut b = Block::new(c, BackendInfo::Disk { size: 0 }).unwrap();
    activate(&mut b);
    assert_eq!(
        b.prepare_save(),
        PrepareSaveWork::DrainAndFlush { process_async_completions: true }
    );
}


#[test]
fn save_then_restore() {
    let mut c = virtio_config();
    c.rate_limiter = Some(RateLimiterConfig {
        bandwidth: Some(TokenBucketConfig { size: 10, one_time_burst: Some(2), refill_time: 3 }),
        ops: None,
    });
    let mut b = Block::new(c, BackendInfo::Disk { size: MIB + 100 }).unwrap();
    b.set_acked_features(1u64 << 32);
    activate(&mut b);
    let state = b.save();
    let r = Block::restore(&state, MIB + 100).unwrap();
    assert_eq!(r.config(), b.config());
    assert_eq!(r.acked_features(), b.acked_features());
    assert_eq!(r.avail_features(), b.avail_features());
    assert!(r.is_activated());
    assert_eq!(r.queues(), b.queues());
    assert_eq!(r.save(), state);
}

#[test]
fn restore_rejects_invalid_state() {
    let b = virtio_block();
    let state = b.save();
    let mut bad = state.clone();
    if let BlockState::Virtio(s) = &mut bad {
        s.virtio_state.device_type = 1;
    }
    assert_eq!(
        Block::restore(&bad, 0).err(),
        Some(BlockError::VirtioBackend(VirtioBlockError::Persist(PersistError::InvalidInput)))
    );
    let mut bad = state.clone();
    if let BlockState::Virtio(s) = &mut bad {
        s.virtio_state.acked_features = 1;
    }
    assert!(Block::restore(&bad, 0).is_err());
    let mut bad = state.clone();
    if let BlockState::Virtio(s) = &mut bad {
        s.virtio_state.queues[0].size = 512;
    }
    assert!(Block::restore(&bad, 0).is_err());
    let mut bad = state;
    if let BlockState::Virtio(s) = &mut bad {
        s.virtio_state.queues.clear();
    }
    assert!(Block::restore(&bad, 0).is_err());
}

#[test]
fn restore_read_only_from_features() {
    let mut c = virtio_config();
    c.is_read_only = Some(true);
    let b = Block::new(c, BackendInfo::Disk { size: 0 }).unwrap();
    let r = Block::restore(&b.save(), 0).unwrap();
    assert!(r.read_only());
}

#[test]
fn restore_vhost_user_state() {
    let state = BlockState::VhostUser(fc_block::vhost_user_block::VhostUserBlockState {
        id: String::from("x"),
        partuuid: None,
        cache_type: CacheType::Unsafe,
        root_device: false,
        socket_path: String::from("/tmp/s"),
        vu_acked_protocol_features: 0,
        config_space: vec![],
    });
    assert_eq!(
        Block::restore(&state, 0).err(),
        Some(BlockError::VhostUserBackend(VhostUserBlockError::SnapshottingNotSupported))
    );
}
