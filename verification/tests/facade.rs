use container_bridge::facade::{convention, entry_point, Convention, EntryPoint, Operation};

fn all_operations() -> Vec<Operation> {
    vec![
        Operation::Ping,
        Operation::PingAsync,
        Operation::ListImages,
        Operation::ListContainers,
        Operation::StartContainer,
        Operation::StopContainer,
        Operation::KillContainer,
        Operation::DeleteContainer,
        Operation::SaveImage,
        Operation::LoadImage,
        Operation::PruneImages,
        Operation::TagImage,
        Operation::DeleteImages,
        Operation::SystemStatus,
    ]
}

#[test]
fn each_operation_has_its_own_entry_point() {
    let ops = all_operations();
    for (i, a) in ops.iter().enumerate() {
        for (j, b) in ops.iter().enumerate() {
            if i != j {
                assert_ne!(entry_point(*a), entry_point(*b));
            }
        }
    }
}

#[test]
fn entry_points_match_the_wiring() {
    assert_eq!(entry_point(Operation::Ping), EntryPoint::FfiPing);
    assert_eq!(entry_point(Operation::PingAsync), EntryPoint::FfiPingAsync);
    assert_eq!(entry_point(Operation::ListImages), EntryPoint::FfiListImages);
    assert_eq!(entry_point(Operation::ListContainers), EntryPoint::FfiListContainers);
    assert_eq!(entry_point(Operation::StartContainer), EntryPoint::FfiStartContainer);
    assert_eq!(entry_point(Operation::StopContainer), EntryPoint::FfiStopContainer);
    assert_eq!(entry_point(Operation::KillContainer), EntryPoint::FfiKillContainer);
    assert_eq!(entry_point(Operation::DeleteContainer), EntryPoint::FfiDeleteContainer);
    assert_eq!(entry_point(Operation::SaveImage), EntryPoint::FfiSaveImage);
    assert_eq!(entry_point(Operation::LoadImage), EntryPoint::FfiLoadImage);
    assert_eq!(entry_point(Operation::PruneImages), EntryPoint::FfiPruneImage);
    assert_eq!(entry_point(Operation::TagImage), EntryPoint::FfiTagImage);
    assert_eq!(entry_point(Operation::DeleteImages), EntryPoint::FfiDeleteImages);
    assert_eq!(entry_point(Operation::SystemStatus), EntryPoint::FfiSystemStatus);
}

#[test]
fn conventions_match_the_surface() {
    assert_eq!(convention(Operation::Ping), Convention::Sync);
    assert_eq!(convention(Operation::PingAsync), Convention::AsyncNoParam);
    assert_eq!(convention(Operation::ListImages), Convention::AsyncNoParam);
    assert_eq!(convention(Operation::ListContainers), Convention::AsyncNoParam);
    assert_eq!(convention(Operation::PruneImages), Convention::AsyncNoParam);
    assert_eq!(convention(Operation::SystemStatus), Convention::AsyncNoParam);
    assert_eq!(convention(Operation::StartContainer), Convention::AsyncWithParam);
    assert_eq!(convention(Operation::StopContainer), Convention::AsyncWithParam);
    assert_eq!(convention(Operation::KillContainer), Convention::AsyncWithParam);
    assert_eq!(convention(Operation::DeleteContainer), Convention::AsyncWithParam);
    assert_eq!(convention(Operation::SaveImage), Convention::AsyncWithParam);
    assert_eq!(convention(Operation::LoadImage), Convention::AsyncWithParam);
    assert_eq!(convention(Operation::TagImage), Convention::AsyncWithParam);
    assert_eq!(convention(Operation::DeleteImages), Convention::AsyncWithParam);
}
