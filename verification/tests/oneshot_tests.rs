use cosy::oneshot::{texture_upload_commands, Command, ImageLayout, OneShotExecutor, QueueModel};

#[test]
fn executed_commands_are_visible_when_execute_returns() {
    let mut queue = QueueModel::new();
    let mut exec = OneShotExecutor::new();
    let sentinel = Command::CopyBufferToImage { buffer: 7, image: 9, width: 1, height: 1 };
    exec.execute(&mut queue, &vec![sentinel]);
    // No further synchronization: the work has completed by the time the
    // call returns.
    assert!(exec.fence_signaled);
    assert_eq!(queue.pending.len(), 0);
    assert_eq!(queue.completed, vec![sentinel]);
}

#[test]
fn execute_retires_a_prior_submission_first() {
    let mut queue = QueueModel::new();
    let mut exec = OneShotExecutor::new();
    let first = Command::TransitionLayout {
        image: 1,
        from: ImageLayout::Undefined,
        to: ImageLayout::TransferDstOptimal,
    };
    let second = Command::TransitionLayout {
        image: 1,
        from: ImageLayout::TransferDstOptimal,
        to: ImageLayout::ShaderReadOnlyOptimal,
    };
    exec.execute(&mut queue, &vec![first]);
    exec.execute(&mut queue, &vec![second]);
    assert_eq!(queue.completed, vec![first, second]);
    assert_eq!(queue.pending.len(), 0);
    assert!(exec.fence_signaled);
}

#[test]
fn execute_with_no_commands_still_synchronizes() {
    let mut queue = QueueModel::new();
    let mut exec = OneShotExecutor::new();
    exec.execute(&mut queue, &Vec::new());
    assert!(exec.fence_signaled);
    assert!(queue.completed.is_empty());
    assert!(queue.pending.is_empty());
}

#[test]
fn texture_upload_records_transition_copy_transition() {
    let cmds = texture_upload_commands(11, 22, 640, 360);
    assert_eq!(
        cmds,
        vec![
            Command::TransitionLayout {
                image: 22,
                from: ImageLayout::Undefined,
                to: ImageLayout::TransferDstOptimal,
            },
            Command::CopyBufferToImage { buffer: 11, image: 22, width: 640, height: 360 },
            Command::TransitionLayout {
                image: 22,
                from: ImageLayout::TransferDstOptimal,
                to: ImageLayout::ShaderReadOnlyOptimal,
            },
        ]
    );
}
