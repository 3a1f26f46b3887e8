use spotify_client::playlist::{
    plan_add_track, plan_delete_track, reorder_request, PlaylistRequest, ReorderRequest,
};

#[test]
fn reorder_behind_the_range_is_one_further_on() {
    assert_eq!(
        reorder_request(5, 2, None),
        Some(ReorderRequest { range_start: 2, insert_before: 6, range_length: None })
    );
}

#[test]
fn reorder_before_the_range_is_as_given() {
    assert_eq!(
        reorder_request(1, 2, None),
        Some(ReorderRequest { range_start: 2, insert_before: 1, range_length: None })
    );
}

#[test]
fn reorder_onto_the_range_start_is_as_given() {
    assert_eq!(
        reorder_request(2, 2, Some(3)),
        Some(ReorderRequest { range_start: 2, insert_before: 2, range_length: Some(3) })
    );
}

#[test]
fn reorder_at_the_edge_of_the_integer_width() {
    let max = i32::MAX as usize;
    assert_eq!(
        reorder_request(max - 1, 0, Some(u32::MAX as usize)),
        Some(ReorderRequest { range_start: 0, insert_before: i32::MAX, range_length: Some(u32::MAX) })
    );
    assert_eq!(
        reorder_request(max, max, None),
        Some(ReorderRequest { range_start: i32::MAX, insert_before: i32::MAX, range_length: None })
    );
}

#[test]
fn reorder_that_does_not_fit_has_no_request() {
    let max = i32::MAX as usize;
    assert_eq!(reorder_request(max, 0, None), None);
    assert_eq!(reorder_request(0, max + 1, None), None);
    assert_eq!(reorder_request(usize::MAX, 0, None), None);
    assert_eq!(reorder_request(usize::MAX, usize::MAX, None), None);
    if usize::BITS > 32 {
        assert_eq!(reorder_request(1, 2, Some(u32::MAX as usize + 1)), None);
    }
}

#[test]
fn adding_a_track_removes_it_first() {
    assert_eq!(
        plan_add_track("37i9dQZF1DXcBWIGoYBM5M", "6D6Pybzey0shI8U9ttRAPx"),
        vec![
            PlaylistRequest::RemoveAllOccurrences {
                playlist_id: "37i9dQZF1DXcBWIGoYBM5M".to_string(),
                track_id: "6D6Pybzey0shI8U9ttRAPx".to_string(),
            },
            PlaylistRequest::AddItem {
                playlist_id: "37i9dQZF1DXcBWIGoYBM5M".to_string(),
                track_id: "6D6Pybzey0shI8U9ttRAPx".to_string(),
            },
        ]
    );
}

#[test]
fn deleting_a_track_removes_every_occurrence() {
    assert_eq!(
        plan_delete_track("p", "t"),
        vec![PlaylistRequest::RemoveAllOccurrences { playlist_id: "p".to_string(), track_id: "t".to_string() }]
    );
}

/// What the catalog does with a plan, on a playlist held as a list of tracks.
fn carry_out(tracks: &mut Vec<String>, plan: &[PlaylistRequest]) {
    for request in plan {
        match request {
            PlaylistRequest::RemoveAllOccurrences { track_id, .. } => tracks.retain(|t| t != track_id),
            PlaylistRequest::AddItem { track_id, .. } => tracks.push(track_id.clone()),
            PlaylistRequest::Reorder { request, .. } => {
                let start = request.range_start as usize;
                let length = request.range_length.unwrap_or(1) as usize;
                let before = request.insert_before as usize;
                let range: Vec<String> = tracks.drain(start..start + length).collect();
                let at = if before > start { before - length } else { before };
                for (k, track) in range.into_iter().enumerate() {
                    tracks.insert(at + k, track);
                }
            }
        }
    }
}

#[test]
fn an_added_track_stands_in_the_playlist_once() {
    let mut tracks: Vec<String> = ["a", "t", "b", "t", "c"].iter().map(|s| s.to_string()).collect();
    carry_out(&mut tracks, &plan_add_track("p", "t"));
    assert_eq!(tracks, vec!["a", "b", "c", "t"]);
}

#[test]
fn a_moved_item_lands_at_the_index_asked_for() {
    for (insert_index, range_start) in [(5usize, 2usize), (1, 2), (2, 2), (0, 5), (5, 0)] {
        let mut tracks: Vec<String> = (0..6).map(|i| i.to_string()).collect();
        let request = reorder_request(insert_index, range_start, None).unwrap();
        carry_out(
            &mut tracks,
            &[PlaylistRequest::Reorder { playlist_id: "p".to_string(), request, snapshot_id: None }],
        );
        assert_eq!(tracks[insert_index], range_start.to_string());
        assert_eq!(tracks.len(), 6);
    }
}
