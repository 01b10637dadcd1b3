use vstd::prelude::*;

verus! {

/// Which of the GPU resources needed to draw a frame a renderer holds.
pub struct RenderResources {
    pub surface: bool,
    pub device: bool,
    pub queue: bool,
    pub config: bool,
    pub pipeline: bool,
}

/// The complaint about the first missing resource, checked in the order
/// surface, device, queue, config, pipeline; `None` when all are present.
pub open spec fn missing_resource_message(r: RenderResources) -> Option<Seq<char>> {
    if !r.surface {
        Some("no surface"@)
    } else if !r.device {
        Some("no device"@)
    } else if !r.queue {
        Some("no queue"@)
    } else if !r.config {
        Some("no config"@)
    } else if !r.pipeline {
        Some("no pipeline"@)
    } else {
        None
    }
}

/// Whether the renderer holds none of the resources: it was never attached to
/// a surface, so there is nothing to draw on.
pub open spec fn holds_no_resource(r: RenderResources) -> bool {
    !r.surface && !r.device && !r.queue && !r.config && !r.pipeline
}

/// Decides what a frame does with the resources at hand: `Ok(true)` when every
/// resource is present and the frame is drawn; `Ok(false)` when the renderer
/// holds none of them and the frame is skipped; otherwise the error naming the
/// first missing resource.
pub fn check_render_resources(r: &RenderResources) -> (res: Result<bool, String>)
    ensures
        holds_no_resource(*r) ==> res == Ok::<bool, String>(false),
        res == Ok::<bool, String>(true) <==> (r.surface && r.device && r.queue && r.config
            && r.pipeline),
        !holds_no_resource(*r) ==> match res {
            Ok(_) => missing_resource_message(*r) is None,
            Err(e) => missing_resource_message(*r) == Some(e@),
        },
        (r.surface || r.device || r.queue || r.config || r.pipeline) && !(r.surface && r.device
            && r.queue && r.config && r.pipeline) ==> res is Err,
        !r.surface && (r.device || r.queue || r.config || r.pipeline) ==> (res matches Err(e)
            && e@ == "no surface"@),
        r.surface && !r.device ==> (res matches Err(e) && e@ == "no device"@),
        r.surface && r.device && !r.queue ==> (res matches Err(e) && e@ == "no queue"@),
        r.surface && r.device && r.queue && !r.config ==> (res matches Err(e) && e@
            == "no config"@),
        r.surface && r.device && r.queue && r.config && !r.pipeline ==> (res matches Err(e)
            && e@ == "no pipeline"@),
{
    if !r.surface && !r.device && !r.queue && !r.config && !r.pipeline {
        return Ok(false);
    }
    if !r.surface {
        return Err("no surface".to_owned());
    }
    if !r.device {
        return Err("no device".to_owned());
    }
    if !r.queue {
        return Err("no queue".to_owned());
    }
    if !r.config {
        return Err("no config".to_owned());
    }
    if !r.pipeline {
        return Err("no pipeline".to_owned());
    }
    Ok(true)
}

/// A surface extent along one axis: the requested size, raised to 1 when it
/// is 0.
pub fn surface_dimension(requested: u32) -> (size: u32)
    ensures
        size == if requested >= 1 { requested } else { 1 },
        size >= 1,
{
    if requested >= 1 {
        requested
    } else {
        1
    }
}

/// Whether some entry of `preferred` is set.
pub open spec fn has_preferred(preferred: Seq<bool>) -> bool {
    exists|i: int| 0 <= i < preferred.len() && preferred[i]
}

/// Picks the surface format among those the surface supports, given for each
/// one whether it is a preferred (sRGB) format: the first preferred one, or
/// the first one when none is preferred.
pub fn choose_surface_format(preferred: &Vec<bool>) -> (choice: usize)
    requires
        preferred.len() > 0,
    ensures
        choice < preferred.len(),
        has_preferred(preferred@) ==> preferred@[choice as int] && forall|j: int|
            0 <= j < choice ==> !preferred@[j],
        !has_preferred(preferred@) ==> choice == 0,
        (exists|i: int| 0 <= i < preferred@.len() && preferred@[i]) ==> preferred@[choice as int]
            && forall|j: int| 0 <= j < choice ==> !preferred@[j],
        (forall|i: int| 0 <= i < preferred@.len() ==> !preferred@[i]) ==> choice == 0,
{
    let mut i: usize = 0;
    while i < preferred.len()
        invariant
            i <= preferred.len(),
            forall|j: int| 0 <= j < i ==> !preferred@[j],
        decreases preferred.len() - i,
    {
        if preferred[i] {
            return i;
        }
        i += 1;
    }
    0
}

} // verus!
