//! The resource catalog: every artifact that is kept in step with the
//! database, with its trigger rule and its query.

use vstd::prelude::*;
use crate::listen::Listen;
use crate::resource::Resource;

verus! {

/// Camera query
pub const CAMERA_SQL: &'static str = "SELECT row_to_json(r)::text FROM (\
      SELECT c.name, location, controller, notes, cam_num, publish \
      FROM iris.camera c \
      LEFT JOIN geo_loc_view gl ON c.geo_loc = gl.name \
      ORDER BY cam_num, c.name\
    ) r";

/// Public Camera query
pub const CAMERA_PUB_SQL: &'static str = "SELECT row_to_json(r)::text FROM (\
      SELECT name, publish, streamable, roadway, road_dir, cross_street, \
             location, lat, lon, ARRAY(\
               SELECT view_num \
               FROM iris.encoder_stream \
               WHERE encoder_type = c.encoder_type \
               AND view_num IS NOT NULL \
               ORDER BY view_num\
             ) AS views \
      FROM camera_view c \
      ORDER BY name\
    ) r";

/// Gate arm query
pub const GATE_ARM_SQL: &'static str = "SELECT row_to_json(r)::text FROM (\
      SELECT g.name, location, g.controller, g.notes, g.arm_state \
      FROM iris.gate_arm g \
      LEFT JOIN iris.gate_arm_array ga ON g.ga_array = ga.name \
      LEFT JOIN geo_loc_view gl ON ga.geo_loc = gl.name \
      ORDER BY name\
    ) r";

/// Gate arm array query
pub const GATE_ARM_ARRAY_SQL: &'static str = "SELECT row_to_json(r)::text FROM (\
      SELECT ga.name, location, notes, arm_state, interlock \
      FROM iris.gate_arm_array ga \
      LEFT JOIN geo_loc_view gl ON ga.geo_loc = gl.name \
      ORDER BY ga.name\
    ) r";

/// GPS query
pub const GPS_SQL: &'static str = "SELECT row_to_json(r)::text FROM (\
      SELECT name, controller, notes \
      FROM iris.gps \
      ORDER BY name\
    ) r";

/// LCS array query
pub const LCS_ARRAY_SQL: &'static str = "SELECT row_to_json(r)::text FROM (\
      SELECT name, notes, lcs_lock \
      FROM iris.lcs_array \
      ORDER BY name\
    ) r";

/// LCS indication query
pub const LCS_INDICATION_SQL: &'static str = "SELECT row_to_json(r)::text FROM (\
      SELECT name, controller, lcs, indication \
      FROM iris.lcs_indication \
      ORDER BY name\
    ) r";

/// Ramp meter query
pub const RAMP_METER_SQL: &'static str = "SELECT row_to_json(r)::text FROM (\
      SELECT m.name, location, controller, notes \
      FROM iris.ramp_meter m \
      LEFT JOIN geo_loc_view gl ON m.geo_loc = gl.name \
      ORDER BY m.name\
    ) r";

/// Tag reader query
pub const TAG_READER_SQL: &'static str = "SELECT row_to_json(r)::text FROM (\
      SELECT t.name, location, controller, notes \
      FROM iris.tag_reader t \
      LEFT JOIN geo_loc_view gl ON t.geo_loc = gl.name \
      ORDER BY t.name\
    ) r";

/// Video monitor query
pub const VIDEO_MONITOR_SQL: &'static str = "SELECT row_to_json(r)::text FROM (\
      SELECT name, mon_num, controller, notes \
      FROM iris.video_monitor \
      ORDER BY mon_num, name\
    ) r";

/// Flow stream query
pub const FLOW_STREAM_SQL: &'static str = "SELECT row_to_json(r)::text FROM (\
      SELECT name, controller \
      FROM iris.flow_stream \
      ORDER BY name\
    ) r";

/// Detector query
pub const DETECTOR_SQL: &'static str = "SELECT row_to_json(r)::text FROM (\
      SELECT name, label, controller, notes \
      FROM detector_view \
      ORDER BY regexp_replace(name, '[0-9]', '', 'g'), \
              (regexp_replace(name, '[^0-9]', '', 'g') || '0')::INTEGER\
    ) r";

/// Public Detector query
pub const DETECTOR_PUB_SQL: &'static str = "SELECT row_to_json(r)::text FROM (\
      SELECT name, r_node, cor_id, lane_number, lane_code, field_length \
      FROM detector_view\
    ) r";

/// DMS query
pub const DMS_SQL: &'static str = "SELECT json_strip_nulls(row_to_json(r))::text FROM (\
      SELECT d.name, location, msg_current, \
             NULLIF(char_length(status->>'faults') > 0, false) AS has_faults, \
             NULLIF(notes, '') AS notes, hashtags, controller \
      FROM iris.dms d \
      LEFT JOIN geo_loc_view gl ON d.geo_loc = gl.name \
      LEFT JOIN (\
        SELECT dms, string_agg(hashtag, ' ' ORDER BY hashtag) AS hashtags \
        FROM iris.dms_hashtag \
        GROUP BY dms\
      ) h ON d.name = h.dms \
      ORDER BY d.name\
    ) r";

/// Public DMS query
pub const DMS_PUB_SQL: &'static str = "SELECT row_to_json(r)::text FROM (\
      SELECT name, sign_config, sign_detail, roadway, road_dir, \
             cross_street, location, lat, lon \
      FROM dms_view \
      ORDER BY name\
    ) r";

/// DMS status query
///
/// NOTE: the `sources` attribute is deprecated,
///       but required by external systems (for now)
pub const DMS_STAT_SQL: &'static str = "SELECT row_to_json(r)::text FROM (\
      SELECT name, msg_current, \
             replace(substring(msg_owner FROM 'IRIS; ([^;]*).*'), '+', ', ') \
             AS sources, failed, duration, expire_time \
      FROM dms_message_view WHERE condition = 'Active' \
      ORDER BY name\
    ) r";

/// Font query
pub const FONT_SQL: &'static str = "SELECT row_to_json(f)::text FROM (\
      SELECT f_number, name, height, width, char_spacing, line_spacing, \
             array(SELECT row_to_json(c) FROM (\
               SELECT code_point, width, \
                      replace(pixels, E'\n', '') AS bitmap \
               FROM iris.glyph \
               WHERE font = ft.name \
               ORDER BY code_point \
             ) AS c) \
           AS glyphs, version_id \
      FROM iris.font ft ORDER BY name\
    ) AS f";

/// Graphic query
pub const GRAPHIC_SQL: &'static str = "SELECT row_to_json(r)::text FROM (\
      SELECT g_number AS number, name, height, width, color_scheme, \
             transparent_color, replace(pixels, E'\n', '') AS bitmap \
      FROM graphic_view \
      WHERE g_number < 256\
    ) r";

/// Message line query
pub const MSG_LINE_SQL: &'static str = "SELECT json_strip_nulls(row_to_json(r))::text FROM (\
      SELECT name, msg_pattern, line, multi, restrict_hashtag \
      FROM iris.msg_line \
      ORDER BY msg_pattern, line, rank, restrict_hashtag\
    ) r";

/// Message pattern query
pub const MSG_PATTERN_SQL: &'static str = "SELECT json_strip_nulls(row_to_json(r))::text FROM (\
      SELECT name, multi, compose_hashtag \
      FROM iris.msg_pattern \
      ORDER BY name\
    ) r";

/// Incident query
pub const INCIDENT_SQL: &'static str = "SELECT row_to_json(r)::text FROM (\
      SELECT name, event_date, description, road, direction, lane_type, \
             impact, confirmed, camera, detail, replaces, lat, lon \
      FROM incident_view \
      WHERE cleared = false\
    ) r";

/// Alarm query
pub const ALARM_SQL: &'static str = "SELECT row_to_json(r)::text FROM (\
      SELECT name, description, controller, state \
      FROM iris.alarm \
      ORDER BY description\
    ) r";

/// Beacon state LUT query
pub const BEACON_STATE_SQL: &'static str = "SELECT row_to_json(r)::text FROM (\
      SELECT id, description \
      FROM iris.beacon_state \
      ORDER BY id\
    ) r";

/// Beacon query
pub const BEACON_SQL: &'static str = "SELECT row_to_json(r)::text FROM (\
      SELECT b.name, location, controller, message, notes, state \
      FROM iris.beacon b \
      LEFT JOIN geo_loc_view gl ON b.geo_loc = gl.name \
      ORDER BY name\
    ) r";

/// Lane marking query
pub const LANE_MARKING_SQL: &'static str = "SELECT row_to_json(r)::text FROM (\
      SELECT m.name, location, controller, notes, deployed \
      FROM iris.lane_marking m \
      LEFT JOIN geo_loc_view gl ON m.geo_loc = gl.name \
      ORDER BY name\
    ) r";

/// Cabinet style query
pub const CABINET_STYLE_SQL: &'static str = "SELECT row_to_json(r)::text FROM (\
      SELECT name \
      FROM iris.cabinet_style \
      ORDER BY name\
    ) r";

/// Comm protocol LUT query
pub const COMM_PROTOCOL_SQL: &'static str = "SELECT row_to_json(r)::text FROM (\
      SELECT id, description \
      FROM iris.comm_protocol \
      ORDER BY description\
    ) r";

/// Comm configuration query
pub const COMM_CONFIG_SQL: &'static str = "SELECT row_to_json(r)::text FROM (\
      SELECT name, description \
      FROM iris.comm_config \
      ORDER BY description\
    ) r";

/// Comm link query
pub const COMM_LINK_SQL: &'static str = "SELECT row_to_json(r)::text FROM (\
      SELECT name, description, uri, comm_config, poll_enabled, connected \
      FROM iris.comm_link \
      ORDER BY regexp_replace(name, '[0-9]', '', 'g'), \
              (regexp_replace(name, '[^0-9]', '', 'g') || '0')::INTEGER\
    ) r";

/// Controller condition LUT query
pub const CONDITION_SQL: &'static str = "SELECT row_to_json(r)::text FROM (\
      SELECT id, description \
      FROM iris.condition \
      ORDER BY description\
    ) r";

/// Direction LUT query
pub const DIRECTION_SQL: &'static str = "SELECT row_to_json(r)::text FROM (\
      SELECT id, direction, dir \
      FROM iris.direction \
      ORDER BY id\
    ) r";

/// Roadway query
pub const ROADWAY_SQL: &'static str = "SELECT row_to_json(r)::text FROM (\
      SELECT name, abbrev, r_class, direction \
      FROM iris.road \
      ORDER BY name\
    ) r";

/// Road modifier LUT query
pub const ROAD_MODIFIER_SQL: &'static str = "SELECT row_to_json(r)::text FROM (\
      SELECT id, modifier, mod AS md \
      FROM iris.road_modifier \
      ORDER BY id\
    ) r";

/// Gate arm interlock LUT query
pub const GATE_ARM_INTERLOCK_SQL: &'static str = "SELECT row_to_json(r)::text FROM (\
      SELECT id, description \
      FROM iris.gate_arm_interlock \
      ORDER BY id\
    ) r";

/// Gate arm state LUT query
pub const GATE_ARM_STATE_SQL: &'static str = "SELECT row_to_json(r)::text FROM (\
      SELECT id, description \
      FROM iris.gate_arm_state \
      ORDER BY id\
    ) r";

/// Lane use indication LUT query
pub const LANE_USE_INDICATION_SQL: &'static str = "SELECT row_to_json(r)::text FROM (\
      SELECT id, description \
      FROM iris.lane_use_indication \
      ORDER BY id\
    ) r";

/// LCS lock LUT query
pub const LCS_LOCK_SQL: &'static str = "SELECT row_to_json(r)::text FROM (\
      SELECT id, description \
      FROM iris.lcs_lock \
      ORDER BY id\
    ) r";

/// Resource type LUT query
pub const RESOURCE_TYPE_SQL: &'static str = "SELECT to_json(r.name)::text FROM (\
      SELECT name \
      FROM iris.resource_type \
      ORDER BY name\
    ) r";

/// Controller query
pub const CONTROLLER_SQL: &'static str = "SELECT row_to_json(r)::text FROM (\
      SELECT c.name, location, comm_link, drop_id, cabinet_style, condition, \
             notes, setup, fail_time \
      FROM iris.controller c \
      LEFT JOIN geo_loc_view gl ON c.geo_loc = gl.name \
      ORDER BY COALESCE(regexp_replace(comm_link, '[0-9]', '', 'g'), ''), \
              (regexp_replace(comm_link, '[^0-9]', '', 'g') || '0')::INTEGER, \
               drop_id\
    ) r";

/// Weather sensor query
pub const WEATHER_SENSOR_SQL: &'static str = "SELECT row_to_json(r)::text FROM (\
      SELECT ws.name, site_id, alt_id, location, controller, notes \
      FROM iris.weather_sensor ws \
      LEFT JOIN geo_loc_view gl ON ws.geo_loc = gl.name \
      ORDER BY name\
    ) r";

/// RWIS query
pub const RWIS_SQL: &'static str = "SELECT row_to_json(r)::text FROM (\
      SELECT ws.name, location, lat, lon, settings, sample, sample_time \
      FROM iris.weather_sensor ws \
      LEFT JOIN geo_loc_view gl ON ws.geo_loc = gl.name \
      ORDER BY name\
    ) r";

/// Modem query
pub const MODEM_SQL: &'static str = "SELECT row_to_json(r)::text FROM (\
      SELECT name, enabled \
      FROM iris.modem \
      ORDER BY name\
    ) r";

/// Permission query
pub const PERMISSION_SQL: &'static str = "SELECT row_to_json(r)::text FROM (\
      SELECT id, role, resource_n, hashtag, access_n \
      FROM iris.permission \
      ORDER BY role, resource_n, id\
    ) r";

/// Role query
pub const ROLE_SQL: &'static str = "SELECT row_to_json(r)::text FROM (\
      SELECT name, enabled \
      FROM iris.role \
      ORDER BY name\
    ) r";

/// User query
pub const USER_SQL: &'static str = "SELECT row_to_json(r)::text FROM (\
      SELECT name, full_name, role, enabled \
      FROM iris.i_user \
      ORDER BY name\
    ) r";

/// Sign configuration query
pub const SIGN_CONFIG_SQL: &'static str = "SELECT row_to_json(r)::text FROM (\
      SELECT name, face_width, face_height, border_horiz, border_vert, \
             pitch_horiz, pitch_vert, pixel_width, pixel_height, \
             char_width, char_height, monochrome_foreground, \
             monochrome_background, color_scheme, default_font, \
             module_width, module_height \
      FROM sign_config_view\
    ) r";

/// Sign detail query
pub const SIGN_DETAIL_SQL: &'static str = "SELECT row_to_json(r)::text FROM (\
      SELECT name, dms_type, portable, technology, sign_access, legend, \
             beacon_type, hardware_make, hardware_model, software_make, \
             software_model, supported_tags, max_pages, max_multi_len, \
             beacon_activation_flag, pixel_service_flag \
      FROM sign_detail_view\
    ) r";

/// Sign message query
pub const SIGN_MSG_SQL: &'static str = "SELECT row_to_json(r)::text FROM (\
      SELECT name, sign_config, incident, multi, msg_owner, flash_beacon, \
             msg_priority, duration \
      FROM sign_message_view \
      ORDER BY name\
    ) r";

/// Public System attribute query
pub const SYSTEM_ATTRIBUTE_PUB_SQL: &'static str = "SELECT jsonb_object_agg(name, value)::text \
      FROM iris.system_attribute \
      WHERE name LIKE 'dms\\_%' OR name LIKE 'map\\_%'";

/// Static parking area query
pub const TPIMS_STAT_SQL: &'static str = "SELECT row_to_json(r)::text FROM (\
      SELECT site_id AS \"siteId\", \
             to_char(time_stamp_static AT TIME ZONE 'UTC', \
                     'YYYY-mm-dd\"T\"HH24:MI:SSZ') AS \"timeStamp\", \
             relevant_highway AS \"relevantHighway\", \
             reference_post AS \"referencePost\", exit_id AS \"exitID\", \
             road_dir AS \"directionOfTravel\", facility_name AS name, \
             json_build_object('latitude', lat, 'longitude', lon, \
             'streetAdr', street_adr, 'city', city, 'state', state, \
             'zip', zip, 'timeZone', time_zone) AS location, \
             ownership, capacity, \
             string_to_array(amenities, ', ') AS amenities, \
             array_remove(ARRAY[camera_image_base_url || camera_1, \
             camera_image_base_url || camera_2, \
             camera_image_base_url || camera_3], NULL) AS images, \
             ARRAY[]::text[] AS logos \
      FROM parking_area_view\
    ) r";

/// Dynamic parking area query
pub const TPIMS_DYN_SQL: &'static str = "SELECT row_to_json(r)::text FROM (\
      SELECT site_id AS \"siteId\", \
             to_char(time_stamp AT TIME ZONE 'UTC', \
                     'YYYY-mm-dd\"T\"HH24:MI:SSZ') AS \"timeStamp\", \
             to_char(time_stamp_static AT TIME ZONE 'UTC', \
                     'YYYY-mm-dd\"T\"HH24:MI:SSZ') AS \"timeStampStatic\", \
             reported_available AS \"reportedAvailable\", \
             trend, open, trust_data AS \"trustData\", capacity \
      FROM parking_area_view\
    ) r";

/// Archive parking area query
pub const TPIMS_ARCH_SQL: &'static str = "SELECT row_to_json(r)::text FROM (\
      SELECT site_id AS \"siteId\",
             to_char(time_stamp AT TIME ZONE 'UTC', \
                     'YYYY-mm-dd\"T\"HH24:MI:SSZ') AS \"timeStamp\", \
             to_char(time_stamp_static AT TIME ZONE 'UTC', \
                     'YYYY-mm-dd\"T\"HH24:MI:SSZ') AS \"timeStampStatic\", \
             reported_available AS \"reportedAvailable\", \
             trend, open, trust_data AS \"trustData\", capacity, \
             last_verification_check AS \"lastVerificationCheck\", \
             verification_check_amplitude AS \"verificationCheckAmplitude\", \
             low_threshold AS \"lowThreshold\", \
             true_available AS \"trueAvailable\" \
      FROM parking_area_view\
    ) r";

/// All defined resources, in the order in which they are first fetched:
/// system attributes come first, and roads before the road nodes.
pub open spec fn catalog() -> Seq<Resource> {
    seq![
        Resource::Simple(
            "system_attribute_pub",
            Listen::All("system_attribute"),
            SYSTEM_ATTRIBUTE_PUB_SQL,
        ),
        Resource::Road(Listen::All("road")),
        Resource::Simple(
            "api/alarm",
            Listen::Exclude("alarm", &["pin", "trigger_time"]),
            ALARM_SQL,
        ),
        Resource::Simple("beacon_state", Listen::Nope, BEACON_STATE_SQL),
        Resource::Simple("api/beacon", Listen::All("beacon"), BEACON_SQL),
        Resource::Simple("api/lane_marking", Listen::All("lane_marking"), LANE_MARKING_SQL),
        Resource::Simple("api/cabinet_style", Listen::All("cabinet_style"), CABINET_STYLE_SQL),
        Resource::Simple("comm_protocol", Listen::Nope, COMM_PROTOCOL_SQL),
        Resource::Simple("api/comm_config", Listen::All("comm_config"), COMM_CONFIG_SQL),
        Resource::Simple("api/comm_link", Listen::All("comm_link"), COMM_LINK_SQL),
        Resource::Simple("condition", Listen::Nope, CONDITION_SQL),
        Resource::Simple("direction", Listen::Nope, DIRECTION_SQL),
        Resource::Simple("api/road", Listen::All("road"), ROADWAY_SQL),
        Resource::Simple("road_modifier", Listen::Nope, ROAD_MODIFIER_SQL),
        Resource::Simple("gate_arm_interlock", Listen::Nope, GATE_ARM_INTERLOCK_SQL),
        Resource::Simple("gate_arm_state", Listen::Nope, GATE_ARM_STATE_SQL),
        Resource::Simple("lane_use_indication", Listen::Nope, LANE_USE_INDICATION_SQL),
        Resource::Simple("lcs_lock", Listen::Nope, LCS_LOCK_SQL),
        Resource::Simple("resource_type", Listen::Nope, RESOURCE_TYPE_SQL),
        Resource::Simple("api/controller", Listen::All("controller"), CONTROLLER_SQL),
        Resource::Simple(
            "api/weather_sensor",
            Listen::Exclude("weather_sensor", &["pin", "settings", "sample"]),
            WEATHER_SENSOR_SQL,
        ),
        Resource::Simple("rwis", Listen::All("weather_sensor"), RWIS_SQL),
        Resource::Simple("api/modem", Listen::All("modem"), MODEM_SQL),
        Resource::Simple("api/permission", Listen::All("permission"), PERMISSION_SQL),
        Resource::Simple("api/role", Listen::All("role"), ROLE_SQL),
        Resource::Simple("api/user", Listen::All("i_user"), USER_SQL),
        Resource::Simple("api/camera", Listen::Exclude("camera", &["video_loss"]), CAMERA_SQL),
        Resource::Simple("camera_pub", Listen::Exclude("camera", &["video_loss"]), CAMERA_PUB_SQL),
        Resource::Simple("api/gate_arm", Listen::All("gate_arm"), GATE_ARM_SQL),
        Resource::Simple("api/gate_arm_array", Listen::All("gate_arm_array"), GATE_ARM_ARRAY_SQL),
        Resource::Simple(
            "api/gps",
            Listen::Exclude("gps", &["latest_poll", "latest_sample", "lat", "lon"]),
            GPS_SQL,
        ),
        Resource::Simple("api/lcs_array", Listen::All("lcs_array"), LCS_ARRAY_SQL),
        Resource::Simple("api/lcs_indication", Listen::All("lcs_indication"), LCS_INDICATION_SQL),
        Resource::Simple("api/ramp_meter", Listen::All("ramp_meter"), RAMP_METER_SQL),
        Resource::Simple("api/tag_reader", Listen::All("tag_reader"), TAG_READER_SQL),
        Resource::Simple(
            "api/video_monitor",
            Listen::Exclude("video_monitor", &["camera"]),
            VIDEO_MONITOR_SQL,
        ),
        Resource::Simple(
            "api/flow_stream",
            Listen::Exclude("flow_stream", &["status"]),
            FLOW_STREAM_SQL,
        ),
        Resource::Simple(
            "api/dms",
            Listen::Exclude("dms", &["msg_user", "msg_sched", "expire_time"]),
            DMS_SQL,
        ),
        Resource::Simple(
            "dms_pub",
            Listen::Exclude(
                "dms",
                &["msg_user", "msg_sched", "msg_current", "expire_time", "status"],
            ),
            DMS_PUB_SQL,
        ),
        Resource::Simple("dms_message", Listen::Include("dms", &["msg_current"]), DMS_STAT_SQL),
        Resource::Font(Listen::Two("font", "glyph"), FONT_SQL),
        Resource::Graphic(Listen::All("graphic"), GRAPHIC_SQL),
        Resource::Simple("api/msg_line", Listen::All("msg_line"), MSG_LINE_SQL),
        Resource::Simple("api/msg_pattern", Listen::All("msg_pattern"), MSG_PATTERN_SQL),
        Resource::Simple("incident", Listen::All("incident"), INCIDENT_SQL),
        Resource::RNode(Listen::All("r_node")),
        Resource::Simple("api/detector", Listen::Exclude("detector", &["auto_fail"]), DETECTOR_SQL),
        Resource::Simple(
            "detector_pub",
            Listen::Exclude("detector", &["auto_fail"]),
            DETECTOR_PUB_SQL,
        ),
        Resource::Simple("sign_config", Listen::All("sign_config"), SIGN_CONFIG_SQL),
        Resource::Simple("sign_detail", Listen::All("sign_detail"), SIGN_DETAIL_SQL),
        Resource::SignMsg(Listen::All("sign_message"), SIGN_MSG_SQL),
        Resource::Simple(
            "TPIMS_static",
            Listen::Include("parking_area", &["time_stamp_static"]),
            TPIMS_STAT_SQL,
        ),
        Resource::Simple(
            "TPIMS_dynamic",
            Listen::Include("parking_area", &["time_stamp"]),
            TPIMS_DYN_SQL,
        ),
        Resource::Simple(
            "TPIMS_archive",
            Listen::Include("parking_area", &["time_stamp"]),
            TPIMS_ARCH_SQL,
        ),
    ]
}

/// All defined resources
pub fn all() -> (r: Vec<Resource>)
    ensures
        r@ == catalog(),
{
    let r = vec![
        // System attributes must be loaded first
        Resource::Simple(
            "system_attribute_pub",
            Listen::All("system_attribute"),
            SYSTEM_ATTRIBUTE_PUB_SQL,
        ),
        // Roads must be loaded before R_Nodes
        Resource::Road(Listen::All("road")),
        Resource::Simple(
            "api/alarm",
            Listen::Exclude("alarm", &["pin", "trigger_time"]),
            ALARM_SQL,
        ),
        Resource::Simple("beacon_state", Listen::Nope, BEACON_STATE_SQL),
        Resource::Simple("api/beacon", Listen::All("beacon"), BEACON_SQL),
        Resource::Simple("api/lane_marking", Listen::All("lane_marking"), LANE_MARKING_SQL),
        Resource::Simple("api/cabinet_style", Listen::All("cabinet_style"), CABINET_STYLE_SQL),
        Resource::Simple("comm_protocol", Listen::Nope, COMM_PROTOCOL_SQL),
        Resource::Simple("api/comm_config", Listen::All("comm_config"), COMM_CONFIG_SQL),
        Resource::Simple("api/comm_link", Listen::All("comm_link"), COMM_LINK_SQL),
        Resource::Simple("condition", Listen::Nope, CONDITION_SQL),
        Resource::Simple("direction", Listen::Nope, DIRECTION_SQL),
        Resource::Simple("api/road", Listen::All("road"), ROADWAY_SQL),
        Resource::Simple("road_modifier", Listen::Nope, ROAD_MODIFIER_SQL),
        Resource::Simple("gate_arm_interlock", Listen::Nope, GATE_ARM_INTERLOCK_SQL),
        Resource::Simple("gate_arm_state", Listen::Nope, GATE_ARM_STATE_SQL),
        Resource::Simple("lane_use_indication", Listen::Nope, LANE_USE_INDICATION_SQL),
        Resource::Simple("lcs_lock", Listen::Nope, LCS_LOCK_SQL),
        Resource::Simple("resource_type", Listen::Nope, RESOURCE_TYPE_SQL),
        Resource::Simple("api/controller", Listen::All("controller"), CONTROLLER_SQL),
        Resource::Simple(
            "api/weather_sensor",
            Listen::Exclude("weather_sensor", &["pin", "settings", "sample"]),
            WEATHER_SENSOR_SQL,
        ),
        Resource::Simple("rwis", Listen::All("weather_sensor"), RWIS_SQL),
        Resource::Simple("api/modem", Listen::All("modem"), MODEM_SQL),
        Resource::Simple("api/permission", Listen::All("permission"), PERMISSION_SQL),
        Resource::Simple("api/role", Listen::All("role"), ROLE_SQL),
        Resource::Simple("api/user", Listen::All("i_user"), USER_SQL),
        Resource::Simple("api/camera", Listen::Exclude("camera", &["video_loss"]), CAMERA_SQL),
        Resource::Simple("camera_pub", Listen::Exclude("camera", &["video_loss"]), CAMERA_PUB_SQL),
        Resource::Simple("api/gate_arm", Listen::All("gate_arm"), GATE_ARM_SQL),
        Resource::Simple("api/gate_arm_array", Listen::All("gate_arm_array"), GATE_ARM_ARRAY_SQL),
        Resource::Simple(
            "api/gps",
            Listen::Exclude("gps", &["latest_poll", "latest_sample", "lat", "lon"]),
            GPS_SQL,
        ),
        Resource::Simple("api/lcs_array", Listen::All("lcs_array"), LCS_ARRAY_SQL),
        Resource::Simple("api/lcs_indication", Listen::All("lcs_indication"), LCS_INDICATION_SQL),
        Resource::Simple("api/ramp_meter", Listen::All("ramp_meter"), RAMP_METER_SQL),
        Resource::Simple("api/tag_reader", Listen::All("tag_reader"), TAG_READER_SQL),
        Resource::Simple(
            "api/video_monitor",
            Listen::Exclude("video_monitor", &["camera"]),
            VIDEO_MONITOR_SQL,
        ),
        Resource::Simple(
            "api/flow_stream",
            Listen::Exclude("flow_stream", &["status"]),
            FLOW_STREAM_SQL,
        ),
        Resource::Simple(
            "api/dms",
            Listen::Exclude("dms", &["msg_user", "msg_sched", "expire_time"]),
            DMS_SQL,
        ),
        Resource::Simple(
            "dms_pub",
            Listen::Exclude(
                "dms",
                &["msg_user", "msg_sched", "msg_current", "expire_time", "status"],
            ),
            DMS_PUB_SQL,
        ),
        Resource::Simple("dms_message", Listen::Include("dms", &["msg_current"]), DMS_STAT_SQL),
        Resource::Font(Listen::Two("font", "glyph"), FONT_SQL),
        Resource::Graphic(Listen::All("graphic"), GRAPHIC_SQL),
        Resource::Simple("api/msg_line", Listen::All("msg_line"), MSG_LINE_SQL),
        Resource::Simple("api/msg_pattern", Listen::All("msg_pattern"), MSG_PATTERN_SQL),
        Resource::Simple("incident", Listen::All("incident"), INCIDENT_SQL),
        Resource::RNode(Listen::All("r_node")),
        Resource::Simple("api/detector", Listen::Exclude("detector", &["auto_fail"]), DETECTOR_SQL),
        Resource::Simple(
            "detector_pub",
            Listen::Exclude("detector", &["auto_fail"]),
            DETECTOR_PUB_SQL,
        ),
        Resource::Simple("sign_config", Listen::All("sign_config"), SIGN_CONFIG_SQL),
        Resource::Simple("sign_detail", Listen::All("sign_detail"), SIGN_DETAIL_SQL),
        Resource::SignMsg(Listen::All("sign_message"), SIGN_MSG_SQL),
        Resource::Simple(
            "TPIMS_static",
            Listen::Include("parking_area", &["time_stamp_static"]),
            TPIMS_STAT_SQL,
        ),
        Resource::Simple(
            "TPIMS_dynamic",
            Listen::Include("parking_area", &["time_stamp"]),
            TPIMS_DYN_SQL,
        ),
        Resource::Simple(
            "TPIMS_archive",
            Listen::Include("parking_area", &["time_stamp"]),
            TPIMS_ARCH_SQL,
        ),
    ];
    assert(r@ =~= catalog());
    r
}

/// The system attributes are fetched before anything else, and the roads
/// before the road nodes.
pub proof fn law_load_order()
    ensures
        catalog().len() == 54,
        catalog()[0] == Resource::Simple(
            "system_attribute_pub",
            Listen::All("system_attribute"),
            SYSTEM_ATTRIBUTE_PUB_SQL,
        ),
        catalog()[1] is Road,
        catalog()[45] is RNode,
        forall|k: int| 0 <= k < 54 && k != 45 ==> !((#[trigger] catalog()[k]) is RNode),
{
}

} // verus!
