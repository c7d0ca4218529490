//! What features each kind of block device offers the driver, stated bit by
//! bit from the configuration it was created from and, for a vhost-user
//! device, from what its backend offered.

use vstd::prelude::*;
use crate::block::{BackendInfo, spec_block_new, spec_avail_features, spec_read_only};
use crate::drive::{BlockDeviceConfig, spec_is_virtio_config, spec_is_vhost_user_config};
use crate::virtio_block::{VirtioBlockConfig, spec_virtio_block_new};
use crate::vhost_user_block::{
    VhostUserBlockConfig, spec_vhost_user_block_new, spec_requested_features,
};
use crate::virtio::{
    VIRTIO_F_VERSION_1, VIRTIO_RING_F_EVENT_IDX, VIRTIO_BLK_F_RO, VIRTIO_BLK_F_FLUSH,
    VHOST_USER_F_PROTOCOL_FEATURES, VHOST_USER_PROTOCOL_F_CONFIG,
};

verus! {

/// Bit `n` of `f` is set.
pub open spec fn has_bit(f: u64, n: u64) -> bool {
    f & (1u64 << n) != 0
}

/// The bits a virtio device may offer: virtio 1.0, event index, flush and
/// read-only.
pub open spec fn virtio_feature_mask() -> u64 {
    (1u64 << 32u64) | (1u64 << 29u64) | (1u64 << 9u64) | (1u64 << 5u64)
}

/// The bits a vhost-user device may offer: virtio 1.0, event index,
/// protocol features, flush and read-only.
pub open spec fn vhost_user_feature_mask() -> u64 {
    (1u64 << 32u64) | (1u64 << 29u64) | (1u64 << 30u64) | (1u64 << 9u64) | (1u64 << 5u64)
}

proof fn lemma_or_zero(x: u64)
    ensures
        x | 0u64 == x,
{
    assert(x | 0u64 == x) by (bit_vector);
}

proof fn lemma_virtio_feature_bits(f: u64, flush: u64, ro: u64)
    requires
        flush == 0 || flush == 1u64 << 9u64,
        ro == 0 || ro == 1u64 << 5u64,
        f == (((1u64 << 32u64) | (1u64 << 29u64)) | flush) | ro,
    ensures
        f & (1u64 << 32u64) != 0,
        f & (1u64 << 29u64) != 0,
        (f & (1u64 << 9u64) != 0) == (flush != 0),
        (f & (1u64 << 5u64) != 0) == (ro != 0),
        f & !((1u64 << 32u64) | (1u64 << 29u64) | (1u64 << 9u64) | (1u64 << 5u64)) == 0,
{
    assert(f & (1u64 << 32u64) != 0 && f & (1u64 << 29u64) != 0 && (f & (1u64 << 9u64) != 0)
        == (flush != 0) && (f & (1u64 << 5u64) != 0) == (ro != 0) && f & !((1u64 << 32u64) | (1u64
        << 29u64) | (1u64 << 9u64) | (1u64 << 5u64)) == 0) by (bit_vector)
        requires
            flush == 0 || flush == 1u64 << 9u64,
            ro == 0 || ro == 1u64 << 5u64,
            f == (((1u64 << 32u64) | (1u64 << 29u64)) | flush) | ro,
    ;
}

/// A virtio block device offers virtio 1.0 and the event index always,
/// flush exactly when its host cache is writeback (whether or not the image
/// is read-only), read-only exactly when its image is read-only, and
/// nothing else.
pub proof fn lemma_virtio_offered_features(config: VirtioBlockConfig, disk_size: u64)
    ensures
        ({
            let f = spec_virtio_block_new(config, disk_size).avail_features;
            &&& has_bit(f, VIRTIO_F_VERSION_1)
            &&& has_bit(f, VIRTIO_RING_F_EVENT_IDX)
            &&& has_bit(f, VIRTIO_BLK_F_FLUSH) == (config.cache_type is Writeback)
            &&& has_bit(f, VIRTIO_BLK_F_RO) == config.is_read_only
            &&& f & !virtio_feature_mask() == 0
        }),
{
    let f = spec_virtio_block_new(config, disk_size).avail_features;
    let flush: u64 = if config.cache_type is Writeback {
        1u64 << 9u64
    } else {
        0
    };
    let ro: u64 = if config.is_read_only {
        1u64 << 5u64
    } else {
        0
    };
    let base: u64 = (1u64 << 32u64) | (1u64 << 29u64);
    let with_flush: u64 = base | flush;
    lemma_or_zero(base);
    lemma_or_zero(with_flush);
    assert(f == with_flush | ro);
    assert(1u64 << 9u64 != 0u64 && 1u64 << 5u64 != 0u64) by (bit_vector);
    lemma_virtio_feature_bits(f, flush, ro);
}

proof fn lemma_vhost_user_feature_bits(f: u64, flush: u64, offered: u64)
    requires
        flush == 0 || flush == 1u64 << 9u64,
        f == (((1u64 << 32u64) | (1u64 << 29u64) | (1u64 << 30u64) | (1u64 << 5u64)) | flush)
            & offered,
    ensures
        f & !offered == 0,
        f & !((1u64 << 32u64) | (1u64 << 29u64) | (1u64 << 30u64) | (1u64 << 9u64) | (1u64
            << 5u64)) == 0,
        (f & (1u64 << 32u64) != 0) == (offered & (1u64 << 32u64) != 0),
        (f & (1u64 << 29u64) != 0) == (offered & (1u64 << 29u64) != 0),
        (f & (1u64 << 30u64) != 0) == (offered & (1u64 << 30u64) != 0),
        (f & (1u64 << 5u64) != 0) == (offered & (1u64 << 5u64) != 0),
        (f & (1u64 << 9u64) != 0) == (flush != 0 && offered & (1u64 << 9u64) != 0),
{
    assert(f & !offered == 0 && f & !((1u64 << 32u64) | (1u64 << 29u64) | (1u64 << 30u64) | (1u64
        << 9u64) | (1u64 << 5u64)) == 0 && (f & (1u64 << 32u64) != 0) == (offered & (1u64
        << 32u64) != 0) && (f & (1u64 << 29u64) != 0) == (offered & (1u64 << 29u64) != 0) && (f
        & (1u64 << 30u64) != 0) == (offered & (1u64 << 30u64) != 0) && (f & (1u64 << 5u64) != 0)
        == (offered & (1u64 << 5u64) != 0) && (f & (1u64 << 9u64) != 0) == (flush != 0 && offered
        & (1u64 << 9u64) != 0)) by (bit_vector)
        requires
            flush == 0 || flush == 1u64 << 9u64,
            f == (((1u64 << 32u64) | (1u64 << 29u64) | (1u64 << 30u64) | (1u64 << 5u64)) | flush)
                & offered,
    ;
}

/// A vhost-user block device offers only features its backend offered.
/// Of virtio 1.0, the event index, protocol features and read-only it
/// offers each exactly when the backend does; flush exactly when its host
/// cache is writeback and the backend offers it, so never with an unsafe
/// cache; and nothing else. It is read-only exactly when the backend offers
/// read-only.
pub proof fn lemma_vhost_user_offered_features(
    config: VhostUserBlockConfig,
    backend_features: u64,
    backend_protocol_features: u64,
    backend_config_space: Seq<u8>,
)
    ensures
        ({
            let b = spec_vhost_user_block_new(
                config,
                backend_features,
                backend_protocol_features,
                backend_config_space,
            );
            let f = b.avail_features;
            &&& f & !backend_features == 0
            &&& f & !vhost_user_feature_mask() == 0
            &&& has_bit(f, VIRTIO_F_VERSION_1) == has_bit(backend_features, VIRTIO_F_VERSION_1)
            &&& has_bit(f, VIRTIO_RING_F_EVENT_IDX) == has_bit(
                backend_features,
                VIRTIO_RING_F_EVENT_IDX,
            )
            &&& has_bit(f, VHOST_USER_F_PROTOCOL_FEATURES) == has_bit(
                backend_features,
                VHOST_USER_F_PROTOCOL_FEATURES,
            )
            &&& has_bit(f, VIRTIO_BLK_F_RO) == has_bit(backend_features, VIRTIO_BLK_F_RO)
            &&& has_bit(f, VIRTIO_BLK_F_FLUSH) == (config.cache_type is Writeback && has_bit(
                backend_features,
                VIRTIO_BLK_F_FLUSH,
            ))
            &&& b.read_only == has_bit(backend_features, VIRTIO_BLK_F_RO)
        }),
{
    let f = spec_vhost_user_block_new(
        config,
        backend_features,
        backend_protocol_features,
        backend_config_space,
    ).avail_features;
    let flush: u64 = if config.cache_type is Writeback {
        1u64 << 9u64
    } else {
        0
    };
    let base: u64 = (1u64 << 32u64) | (1u64 << 29u64) | (1u64 << 30u64) | (1u64 << 5u64);
    lemma_or_zero(base);
    assert(spec_requested_features(config.cache_type) == base | flush);
    assert(f == (((1u64 << 32u64) | (1u64 << 29u64) | (1u64 << 30u64) | (1u64 << 5u64)) | flush)
        & backend_features);
    assert(1u64 << 9u64 != 0u64) by (bit_vector);
    lemma_vhost_user_feature_bits(f, flush, backend_features);
}

/// What a block device created from a configuration offers the driver: a
/// virtio device offers flush exactly when its cache is writeback and
/// read-only exactly when its configuration says so; a vhost-user device
/// offers only what its backend offered, and flush exactly when its cache is
/// writeback and the backend offers flush.
pub proof fn lemma_block_offered_features(config: BlockDeviceConfig, backend: BackendInfo)
    requires
        spec_block_new(config, backend) is Ok,
    ensures
        ({
            let b = spec_block_new(config, backend)->Ok_0;
            let f = spec_avail_features(b);
            &&& has_bit(f, VIRTIO_F_VERSION_1) || spec_is_vhost_user_config(config)
            &&& spec_is_virtio_config(config) ==> {
                &&& has_bit(f, VIRTIO_BLK_F_FLUSH) == (config.cache_type is Writeback)
                &&& has_bit(f, VIRTIO_BLK_F_RO) == (config.is_read_only == Some(true))
                &&& spec_read_only(b) == (config.is_read_only == Some(true))
            }
            &&& spec_is_vhost_user_config(config) ==> (backend matches BackendInfo::VhostUser {
                features,
                ..
            } && {
                &&& f & !features == 0
                &&& has_bit(f, VIRTIO_BLK_F_FLUSH) == (config.cache_type is Writeback && has_bit(
                    features,
                    VIRTIO_BLK_F_FLUSH,
                ))
                &&& spec_read_only(b) == has_bit(features, VIRTIO_BLK_F_RO)
            })
        }),
{
    if spec_is_virtio_config(config) {
        if let BackendInfo::Disk { size } = backend {
            lemma_virtio_offered_features(crate::virtio_block::spec_virtio_config_of(config), size);
        }
    } else {
        if let BackendInfo::VhostUser { features, protocol_features, config_space } = backend {
            lemma_vhost_user_offered_features(
                crate::vhost_user_block::spec_vhost_user_config_of(config),
                features,
                protocol_features,
                config_space@,
            );
        }
    }
}

/// What a vhost-user device agrees with its backend beyond its features:
/// the driver starts out having accepted protocol features exactly when the
/// backend offered them; the configuration-space protocol feature is
/// negotiated exactly when the backend offered protocol features and that
/// protocol feature, and no other protocol feature is; the device then
/// serves the backend's configuration space, and an empty one otherwise.
pub proof fn lemma_vhost_user_negotiation(
    config: VhostUserBlockConfig,
    backend_features: u64,
    backend_protocol_features: u64,
    backend_config_space: Seq<u8>,
)
    ensures
        ({
            let b = spec_vhost_user_block_new(
                config,
                backend_features,
                backend_protocol_features,
                backend_config_space,
            );
            let config_negotiated = has_bit(backend_features, VHOST_USER_F_PROTOCOL_FEATURES)
                && has_bit(backend_protocol_features, VHOST_USER_PROTOCOL_F_CONFIG);
            &&& b.acked_features == if has_bit(backend_features, VHOST_USER_F_PROTOCOL_FEATURES) {
                1u64 << VHOST_USER_F_PROTOCOL_FEATURES
            } else {
                0
            }
            &&& has_bit(b.acked_protocol_features, VHOST_USER_PROTOCOL_F_CONFIG)
                == config_negotiated
            &&& b.acked_protocol_features & !(1u64 << VHOST_USER_PROTOCOL_F_CONFIG) == 0
            &&& b.config_space == if config_negotiated {
                backend_config_space
            } else {
                Seq::<u8>::empty()
            }
        }),
{
    let f = spec_vhost_user_block_new(
        config,
        backend_features,
        backend_protocol_features,
        backend_config_space,
    ).avail_features;
    lemma_vhost_user_offered_features(
        config,
        backend_features,
        backend_protocol_features,
        backend_config_space,
    );
    let p = backend_protocol_features;
    assert((f & (1u64 << 30u64) != 0 ==> f & (1u64 << 30u64) == 1u64 << 30u64) && (f & (1u64
        << 30u64) == 0 || f & (1u64 << 30u64) != 0) && (p & (1u64 << 9u64)) & !(1u64 << 9u64) == 0
        && ((p & (1u64 << 9u64)) & (1u64 << 9u64) != 0) == (p & (1u64 << 9u64) != 0) && (0u64 & (1u64
        << 9u64) == 0) && (0u64 & !(1u64 << 9u64) == 0)) by (bit_vector);
}

} // verus!
