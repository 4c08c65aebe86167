//! The body of a request to generate videos, as JSON.
use vstd::prelude::*;
use crate::json::{Json, JsonValue, array_of, get, member, object_of, pairs_view};
use crate::text::{decimal, owned, push_decimal};
use super::requests::{GenerateVideosConfig, GenerateVideosRequest, VideoImage, VideoInput, VideoReferenceImage};

verus! {

/// The member `key` with the value `v` when there is one, and no member otherwise.
pub open spec fn opt_member(key: Seq<char>, v: Option<Json>) -> Seq<(Seq<char>, Json)> {
    match v {
        Some(j) => seq![(key, j)],
        None => Seq::empty(),
    }
}

/// A JSON string for an optional text.
pub open spec fn opt_str(o: Option<String>) -> Option<Json> {
    match o {
        Some(s) => Some(Json::Str(s@)),
        None => None,
    }
}

/// A JSON number for an optional count.
pub open spec fn opt_num(o: Option<u64>) -> Option<Json> {
    match o {
        Some(n) => Some(Json::Number(decimal(n as nat))),
        None => None,
    }
}

/// An optional byte as an optional count.
pub open spec fn widen(o: Option<u8>) -> Option<u64> {
    match o {
        Some(n) => Some(n as u64),
        None => None,
    }
}

/// The JSON of an image: `imageBytes`, `mimeType` and `uri`, each when set.
pub open spec fn image_json(i: VideoImage) -> Json {
    Json::Object(
        opt_member("imageBytes"@, opt_str(i.image_bytes)) + opt_member("mimeType"@, opt_str(i.mime_type))
            + opt_member("uri"@, opt_str(i.uri)),
    )
}

/// The JSON of a reference image: `image` and `referenceType`.
pub open spec fn reference_json(r: VideoReferenceImage) -> Json {
    Json::Object(seq![("image"@, image_json(r.image)), ("referenceType"@, Json::Str(r.reference_type@))])
}

/// The JSON of bytes: an array of their values.
pub open spec fn bytes_json(b: Seq<u8>) -> Json {
    Json::Array(b.map_values(|x: u8| Json::Number(decimal(x as nat))))
}

/// The JSON of a video to extend: `uri` and `videoBytes`, each when set.
pub open spec fn video_input_json(v: VideoInput) -> Json {
    Json::Object(
        opt_member("uri"@, opt_str(v.uri)) + opt_member(
            "videoBytes"@,
            match v.video_bytes {
                Some(b) => Some(bytes_json(b@)),
                None => None,
            },
        ),
    )
}

/// The JSON of a video configuration: each field that is set, by its camel-case name.
pub open spec fn config_json(c: GenerateVideosConfig) -> Json {
    Json::Object(
        opt_member("aspectRatio"@, opt_str(c.aspect_ratio)) + opt_member("resolution"@, opt_str(c.resolution))
            + opt_member("durationSeconds"@, opt_num(widen(c.duration_seconds))) + opt_member(
            "numberOfVideos"@,
            opt_num(widen(c.number_of_videos)),
        ) + opt_member("personGeneration"@, opt_str(c.person_generation)) + opt_member("seed"@, opt_num(c.seed)),
    )
}

/// The instance of a request: its prompt, and each of the negative prompt, the
/// starting image, the last frame, the reference images and the video when set.
pub open spec fn instance_json(r: GenerateVideosRequest) -> Json {
    Json::Object(
        seq![("prompt"@, Json::Str(r.prompt@))] + opt_member("negativePrompt"@, opt_str(r.negative_prompt))
            + opt_member(
            "image"@,
            match r.image {
                Some(i) => Some(image_json(i)),
                None => None,
            },
        ) + opt_member(
            "lastFrame"@,
            match r.last_frame {
                Some(i) => Some(image_json(i)),
                None => None,
            },
        ) + opt_member(
            "referenceImages"@,
            match r.reference_images {
                Some(v) => Some(Json::Array(v@.map_values(|x: VideoReferenceImage| reference_json(x)))),
                None => None,
            },
        ) + opt_member(
            "video"@,
            match r.video {
                Some(v) => Some(video_input_json(v)),
                None => None,
            },
        ),
    )
}

/// The body of a request to generate videos: `instances`, the one instance of the
/// request, and `parameters`, its configuration when set.
pub open spec fn predict_body_json(r: GenerateVideosRequest) -> Json {
    Json::Object(
        seq![("instances"@, Json::Array(seq![instance_json(r)]))] + opt_member(
            "parameters"@,
            match r.config {
                Some(c) => Some(config_json(c)),
                None => None,
            },
        ),
    )
}

fn push_member(m: &mut Vec<(String, JsonValue)>, key: &str, v: JsonValue)
    ensures
        pairs_view(final(m)@) == pairs_view(old(m)@).push((key@, v@)),
{
    let ghost vv = v@;
    m.push((owned(key), v));
    assert(pairs_view(final(m)@) =~= pairs_view(old(m)@).push((key@, vv)));
}

fn push_opt_text(m: &mut Vec<(String, JsonValue)>, key: &str, v: &Option<String>)
    ensures
        pairs_view(final(m)@) == pairs_view(old(m)@) + opt_member(key@, opt_str(*v)),
{
    match v {
        Some(s) => push_member(m, key, JsonValue::String(s.clone())),
        None => {
            assert(pairs_view(m@) =~= pairs_view(m@) + opt_member(key@, opt_str(*v)));
        },
    }
}

fn number(n: u64) -> (r: JsonValue)
    ensures
        r@ == Json::Number(decimal(n as nat)),
{
    let mut s = String::new();
    push_decimal(&mut s, n);
    assert(s@ =~= decimal(n as nat));
    JsonValue::Number(s)
}

fn push_opt_number(m: &mut Vec<(String, JsonValue)>, key: &str, v: Option<u64>)
    ensures
        pairs_view(final(m)@) == pairs_view(old(m)@) + opt_member(key@, opt_num(v)),
{
    match v {
        Some(n) => push_member(m, key, number(n)),
        None => {
            assert(pairs_view(m@) =~= pairs_view(m@) + opt_member(key@, opt_num(v)));
        },
    }
}

fn widen_exec(o: Option<u8>) -> (r: Option<u64>)
    ensures
        r == widen(o),
{
    match o {
        Some(n) => Some(n as u64),
        None => None,
    }
}

/// The JSON of an image.
pub fn image_to_json(i: &VideoImage) -> (r: JsonValue)
    ensures
        r@ == image_json(*i),
{
    let mut m: Vec<(String, JsonValue)> = Vec::new();
    push_opt_text(&mut m, "imageBytes", &i.image_bytes);
    push_opt_text(&mut m, "mimeType", &i.mime_type);
    push_opt_text(&mut m, "uri", &i.uri);
    assert(pairs_view(m@) =~= opt_member("imageBytes"@, opt_str(i.image_bytes)) + opt_member("mimeType"@, opt_str(i.mime_type))
        + opt_member("uri"@, opt_str(i.uri)));
    object_of(m)
}

/// The JSON of a reference image.
pub fn reference_to_json(x: &VideoReferenceImage) -> (r: JsonValue)
    ensures
        r@ == reference_json(*x),
{
    let mut m: Vec<(String, JsonValue)> = Vec::new();
    push_member(&mut m, "image", image_to_json(&x.image));
    push_member(&mut m, "referenceType", JsonValue::String(x.reference_type.clone()));
    assert(pairs_view(m@) =~= seq![("image"@, image_json(x.image)), ("referenceType"@, Json::Str(x.reference_type@))]);
    object_of(m)
}

/// The JSON of bytes.
pub fn bytes_to_json(b: &Vec<u8>) -> (r: JsonValue)
    ensures
        r@ == bytes_json(b@),
{
    let mut out: Vec<JsonValue> = Vec::new();
    let mut i: usize = 0;
    while i < b.len()
        invariant
            i <= b@.len(),
            out@.len() == i,
            forall|j: int| 0 <= j < i ==> (#[trigger] out@[j])@ == Json::Number(decimal(b@[j] as nat)),
        decreases b@.len() - i,
    {
        out.push(number(b[i] as u64));
        i = i + 1;
    }
    let ghost ov = out@;
    let r = array_of(out);
    assert(ov.map_values(|e: JsonValue| e@) =~= b@.map_values(|x: u8| Json::Number(decimal(x as nat))));
    r
}

/// The JSON of a video to extend.
pub fn video_input_to_json(v: &VideoInput) -> (r: JsonValue)
    ensures
        r@ == video_input_json(*v),
{
    let mut m: Vec<(String, JsonValue)> = Vec::new();
    push_opt_text(&mut m, "uri", &v.uri);
    let ghost mid = pairs_view(m@);
    match &v.video_bytes {
        Some(b) => push_member(&mut m, "videoBytes", bytes_to_json(b)),
        None => {},
    }
    assert(pairs_view(m@) =~= opt_member("uri"@, opt_str(v.uri)) + opt_member(
        "videoBytes"@,
        match v.video_bytes {
            Some(b) => Some(bytes_json(b@)),
            None => None,
        },
    ));
    object_of(m)
}

/// The JSON of a video configuration.
pub fn config_to_json(c: &GenerateVideosConfig) -> (r: JsonValue)
    ensures
        r@ == config_json(*c),
{
    let mut m: Vec<(String, JsonValue)> = Vec::new();
    push_opt_text(&mut m, "aspectRatio", &c.aspect_ratio);
    push_opt_text(&mut m, "resolution", &c.resolution);
    push_opt_number(&mut m, "durationSeconds", widen_exec(c.duration_seconds));
    push_opt_number(&mut m, "numberOfVideos", widen_exec(c.number_of_videos));
    push_opt_text(&mut m, "personGeneration", &c.person_generation);
    push_opt_number(&mut m, "seed", c.seed);
    assert(pairs_view(m@) =~= opt_member("aspectRatio"@, opt_str(c.aspect_ratio)) + opt_member("resolution"@, opt_str(c.resolution))
        + opt_member("durationSeconds"@, opt_num(widen(c.duration_seconds))) + opt_member(
        "numberOfVideos"@,
        opt_num(widen(c.number_of_videos)),
    ) + opt_member("personGeneration"@, opt_str(c.person_generation)) + opt_member("seed"@, opt_num(c.seed)));
    object_of(m)
}

fn references_to_json(v: &Vec<VideoReferenceImage>) -> (r: JsonValue)
    ensures
        r@ == Json::Array(v@.map_values(|x: VideoReferenceImage| reference_json(x))),
{
    let mut out: Vec<JsonValue> = Vec::new();
    let mut i: usize = 0;
    while i < v.len()
        invariant
            i <= v@.len(),
            out@.len() == i,
            forall|j: int| 0 <= j < i ==> (#[trigger] out@[j])@ == reference_json(v@[j]),
        decreases v@.len() - i,
    {
        out.push(reference_to_json(&v[i]));
        i = i + 1;
    }
    let ghost ov = out@;
    let r = array_of(out);
    assert(ov.map_values(|e: JsonValue| e@) =~= v@.map_values(|x: VideoReferenceImage| reference_json(x)));
    r
}

/// The instance of a request to generate videos.
pub fn instance_to_json(req: &GenerateVideosRequest) -> (r: JsonValue)
    ensures
        r@ == instance_json(*req),
        get(r@, "prompt"@) == Some(Json::Str(req.prompt@)),
        req.image is Some ==> get(r@, "image"@) == Some(image_json(req.image->0)),
        req.last_frame is Some ==> get(r@, "lastFrame"@) == Some(image_json(req.last_frame->0)),
        req.last_frame is None ==> get(r@, "lastFrame"@) is None,
{
    proof {
        lemma_instance_members(*req);
    }
    let mut m: Vec<(String, JsonValue)> = Vec::new();
    push_member(&mut m, "prompt", JsonValue::String(req.prompt.clone()));
    let ghost s1 = pairs_view(m@);
    push_opt_text(&mut m, "negativePrompt", &req.negative_prompt);
    let ghost s2 = pairs_view(m@);
    match &req.image {
        Some(i) => push_member(&mut m, "image", image_to_json(i)),
        None => {},
    }
    let ghost s3 = pairs_view(m@);
    assert(s3 =~= s2 + opt_member(
        "image"@,
        match req.image {
            Some(i) => Some(image_json(i)),
            None => None,
        },
    ));
    match &req.last_frame {
        Some(i) => push_member(&mut m, "lastFrame", image_to_json(i)),
        None => {},
    }
    let ghost s4 = pairs_view(m@);
    assert(s4 =~= s3 + opt_member(
        "lastFrame"@,
        match req.last_frame {
            Some(i) => Some(image_json(i)),
            None => None,
        },
    ));
    match &req.reference_images {
        Some(v) => push_member(&mut m, "referenceImages", references_to_json(v)),
        None => {},
    }
    let ghost s5 = pairs_view(m@);
    assert(s5 =~= s4 + opt_member(
        "referenceImages"@,
        match req.reference_images {
            Some(v) => Some(Json::Array(v@.map_values(|x: VideoReferenceImage| reference_json(x)))),
            None => None,
        },
    ));
    match &req.video {
        Some(v) => push_member(&mut m, "video", video_input_to_json(v)),
        None => {},
    }
    let ghost s6 = pairs_view(m@);
    assert(s6 =~= s5 + opt_member(
        "video"@,
        match req.video {
            Some(v) => Some(video_input_json(v)),
            None => None,
        },
    ));
    assert(s1 =~= seq![("prompt"@, Json::Str(req.prompt@))]);
    assert(pairs_view(m@) =~= instance_json(*req)->Object_0);
    object_of(m)
}

/// Looking a key up in members put one after another finds it in the first part
/// that has it.
proof fn lemma_member_concat(a: Seq<(Seq<char>, Json)>, b: Seq<(Seq<char>, Json)>, key: Seq<char>)
    ensures
        member(a + b, key) == match member(a, key) {
            Some(v) => Some(v),
            None => member(b, key),
        },
    decreases a.len(),
{
    if a.len() == 0 {
        assert(a + b =~= b);
    } else {
        assert((a + b)[0] == a[0]);
        if a[0].0 != key {
            assert((a + b).drop_first() =~= a.drop_first() + b);
            lemma_member_concat(a.drop_first(), b, key);
        }
    }
}

/// An optional member holds `key` exactly when it is set under that name.
proof fn lemma_member_opt(k: Seq<char>, v: Option<Json>, key: Seq<char>)
    ensures
        member(opt_member(k, v), key) == if k == key {
            v
        } else {
            None
        },
{
    let m = opt_member(k, v);
    let e = Seq::<(Seq<char>, Json)>::empty();
    assert(member(e, key) is None);
    if v is Some {
        assert(m.len() == 1 && m[0] == (k, v->0));
        assert(m.drop_first() =~= e);
    } else {
        assert(m =~= e);
    }
}

/// The optional members of an instance, in order.
spec fn instance_parts(r: GenerateVideosRequest) -> Seq<Seq<(Seq<char>, Json)>> {
    seq![
        seq![("prompt"@, Json::Str(r.prompt@))],
        opt_member("negativePrompt"@, opt_str(r.negative_prompt)),
        opt_member(
            "image"@,
            match r.image {
                Some(x) => Some(image_json(x)),
                None => None,
            },
        ),
        opt_member(
            "lastFrame"@,
            match r.last_frame {
                Some(x) => Some(image_json(x)),
                None => None,
            },
        ),
        opt_member(
            "referenceImages"@,
            match r.reference_images {
                Some(v) => Some(Json::Array(v@.map_values(|x: VideoReferenceImage| reference_json(x)))),
                None => None,
            },
        ),
        opt_member(
            "video"@,
            match r.video {
                Some(x) => Some(video_input_json(x)),
                None => None,
            },
        ),
    ]
}

/// `a` when it is set, else `b`.
spec fn either(a: Option<Json>, b: Option<Json>) -> Option<Json> {
    match a {
        Some(v) => Some(v),
        None => b,
    }
}

/// Looking `key` up in an instance looks it up in its parts, in order.
proof fn lemma_instance_key(r: GenerateVideosRequest, key: Seq<char>)
    ensures
        get(instance_json(r), key) == either(
            member(instance_parts(r)[0], key),
            either(
                member(instance_parts(r)[1], key),
                either(
                    member(instance_parts(r)[2], key),
                    either(
                        member(instance_parts(r)[3], key),
                        either(member(instance_parts(r)[4], key), member(instance_parts(r)[5], key)),
                    ),
                ),
            ),
        ),
{
    let q = instance_parts(r);
    assert(instance_json(r)->Object_0 =~= q[0] + q[1] + q[2] + q[3] + q[4] + q[5]);
    lemma_member_concat(q[0] + q[1] + q[2] + q[3] + q[4], q[5], key);
    lemma_member_concat(q[0] + q[1] + q[2] + q[3], q[4], key);
    lemma_member_concat(q[0] + q[1] + q[2], q[3], key);
    lemma_member_concat(q[0] + q[1], q[2], key);
    lemma_member_concat(q[0], q[1], key);
    assert(q[0] == opt_member("prompt"@, Some(Json::Str(r.prompt@))));
    lemma_member_opt("prompt"@, Some(Json::Str(r.prompt@)), key);
}

/// Each field of a request to generate videos is in its instance under its own
/// name: `prompt` always, and `negativePrompt`, `image`, `lastFrame`,
/// `referenceImages` and `video` exactly when the request sets them, each with
/// the JSON of what was set. The body holds that instance as its one `instances`
/// entry and the configuration, when set, as `parameters`.
pub proof fn lemma_instance_members(r: GenerateVideosRequest)
    ensures
        get(instance_json(r), "prompt"@) == Some(Json::Str(r.prompt@)),
        r.negative_prompt is Some ==> get(instance_json(r), "negativePrompt"@) == Some(
            Json::Str(r.negative_prompt->0@),
        ),
        r.negative_prompt is None ==> get(instance_json(r), "negativePrompt"@) is None,
        r.image is Some ==> get(instance_json(r), "image"@) == Some(image_json(r.image->0)),
        r.image is None ==> get(instance_json(r), "image"@) is None,
        r.last_frame is Some ==> get(instance_json(r), "lastFrame"@) == Some(image_json(r.last_frame->0)),
        r.last_frame is None ==> get(instance_json(r), "lastFrame"@) is None,
        r.reference_images is Some ==> get(instance_json(r), "referenceImages"@) == Some(
            Json::Array(r.reference_images->0@.map_values(|x: VideoReferenceImage| reference_json(x))),
        ),
        r.reference_images is None ==> get(instance_json(r), "referenceImages"@) is None,
        r.video is Some ==> get(instance_json(r), "video"@) == Some(video_input_json(r.video->0)),
        r.video is None ==> get(instance_json(r), "video"@) is None,
        get(predict_body_json(r), "instances"@) == Some(Json::Array(seq![instance_json(r)])),
        r.config is Some ==> get(predict_body_json(r), "parameters"@) == Some(config_json(r.config->0)),
        r.config is None ==> get(predict_body_json(r), "parameters"@) is None,
{
    reveal_strlit("prompt");
    reveal_strlit("negativePrompt");
    reveal_strlit("image");
    reveal_strlit("lastFrame");
    reveal_strlit("referenceImages");
    reveal_strlit("video");
    reveal_strlit("instances");
    reveal_strlit("parameters");
    assert("prompt"@.len() == 6 && "prompt"@[0] == 'p');
    assert("negativePrompt"@.len() == 14 && "negativePrompt"@[0] == 'n');
    assert("image"@.len() == 5 && "image"@[0] == 'i');
    assert("lastFrame"@.len() == 9 && "lastFrame"@[0] == 'l');
    assert("referenceImages"@.len() == 15 && "referenceImages"@[0] == 'r');
    assert("video"@.len() == 5 && "video"@[0] == 'v');
    assert("instances"@.len() == 9 && "instances"@[0] == 'i');
    assert("parameters"@.len() == 10 && "parameters"@[0] == 'p');
    let q = instance_parts(r);
    let ks = seq!["prompt"@, "negativePrompt"@, "image"@, "lastFrame"@, "referenceImages"@, "video"@];
    assert forall|j: int, k: int| 0 <= j < 6 && 0 <= k < 6 implies #[trigger] member(q[j], ks[k]) == (if j == k {
        if j == 0 {
            Some(Json::Str(r.prompt@))
        } else {
            member(q[j], ks[j])
        }
    } else {
        None
    }) by {
        if j == 0 {
            assert(q[0] == opt_member("prompt"@, Some(Json::Str(r.prompt@))));
            lemma_member_opt("prompt"@, Some(Json::Str(r.prompt@)), ks[k]);
        } else if j == 1 {
            lemma_member_opt("negativePrompt"@, opt_str(r.negative_prompt), ks[k]);
        } else if j == 2 {
            lemma_member_opt("image"@, match r.image { Some(x) => Some(image_json(x)), None => None }, ks[k]);
        } else if j == 3 {
            lemma_member_opt(
                "lastFrame"@,
                match r.last_frame { Some(x) => Some(image_json(x)), None => None },
                ks[k],
            );
        } else if j == 4 {
            lemma_member_opt(
                "referenceImages"@,
                match r.reference_images {
                    Some(v) => Some(Json::Array(v@.map_values(|x: VideoReferenceImage| reference_json(x)))),
                    None => None,
                },
                ks[k],
            );
        } else {
            lemma_member_opt("video"@, match r.video { Some(x) => Some(video_input_json(x)), None => None }, ks[k]);
        }
    }
    lemma_instance_key(r, "prompt"@);
    lemma_instance_key(r, "negativePrompt"@);
    lemma_instance_key(r, "image"@);
    lemma_instance_key(r, "lastFrame"@);
    lemma_instance_key(r, "referenceImages"@);
    lemma_instance_key(r, "video"@);
    let body = predict_body_json(r)->Object_0;
    let pm = opt_member(
        "parameters"@,
        match r.config {
            Some(c) => Some(config_json(c)),
            None => None,
        },
    );
    let im = seq![("instances"@, Json::Array(seq![instance_json(r)]))];
    assert(body =~= im + pm);
    lemma_member_concat(im, pm, "instances"@);
    lemma_member_concat(im, pm, "parameters"@);
    assert(im == opt_member("instances"@, Some(Json::Array(seq![instance_json(r)]))));
    lemma_member_opt("instances"@, Some(Json::Array(seq![instance_json(r)])), "instances"@);
    lemma_member_opt("instances"@, Some(Json::Array(seq![instance_json(r)])), "parameters"@);
    lemma_member_opt(
        "parameters"@,
        match r.config {
            Some(c) => Some(config_json(c)),
            None => None,
        },
        "instances"@,
    );
    lemma_member_opt(
        "parameters"@,
        match r.config {
            Some(c) => Some(config_json(c)),
            None => None,
        },
        "parameters"@,
    );
}

/// The body of a request to generate videos, as [`predict_body_json`] says.
pub fn predict_body(req: &GenerateVideosRequest) -> (r: JsonValue)
    ensures
        r@ == predict_body_json(*req),
{
    let instance = instance_to_json(req);
    let ghost iv = instance@;
    let instances = vec![instance];
    let ghost insv = instances@;
    let arr = array_of(instances);
    assert(insv.map_values(|e: JsonValue| e@) =~= seq![iv]);
    let mut m: Vec<(String, JsonValue)> = Vec::new();
    push_member(&mut m, "instances", arr);
    let ghost s1 = pairs_view(m@);
    match &req.config {
        Some(c) => push_member(&mut m, "parameters", config_to_json(c)),
        None => {},
    }
    assert(s1 =~= seq![("instances"@, Json::Array(seq![instance_json(*req)]))]);
    assert(pairs_view(m@) =~= predict_body_json(*req)->Object_0);
    object_of(m)
}

} // verus!
